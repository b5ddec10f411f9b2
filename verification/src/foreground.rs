//! The foreground control loop: one tick every fixed period samples the
//! temperature into the shared telemetry record, advances the LED rainbow
//! pattern, and decides when to emit the periodic status log line.
//!
//! The LED write itself is best-effort and happens at the caller's edge: a
//! failed write is logged and the loop continues.
use vstd::prelude::*;

use crate::telemetry::Telemetry;

verus! {

/// The loop period, in milliseconds.
pub const TICK_PERIOD_MS: u64 = 50;

/// A status line is logged every this many ticks.
pub const STATUS_LOG_PERIOD: u64 = 100;

/// The hue advances by this much per tick, wrapping modulo 256.
pub const HUE_STEP: u8 = 10;

/// The fixed saturation of the rainbow pattern.
pub const LED_SATURATION: u8 = 255;

/// The fixed (dim) brightness of the rainbow pattern.
pub const LED_VALUE: u8 = 8;

/// The RGB triple the hue-saturation-value conversion yields; a function of
/// its arguments alone.
pub uninterp spec fn rgb_of_hsv(hue: u8, sat: u8, val: u8) -> (u8, u8, u8);

/// Relies on smart_leds::hsv::hsv2rgb: an integer conversion whose result
/// depends on the three channel values alone.
#[verifier::external_body]
fn hsv_to_rgb(hue: u8, sat: u8, val: u8) -> (r: (u8, u8, u8))
    ensures
        r == rgb_of_hsv(hue, sat, val),
{
    let c = smart_leds::hsv::hsv2rgb(smart_leds::hsv::Hsv { hue, sat, val });
    (c.r, c.g, c.b)
}

/// The single pixel of the rainbow pattern for a given hue, at the fixed
/// saturation and brightness.
pub fn rainbow_color(hue: u8) -> (r: (u8, u8, u8))
    ensures
        r == rgb_of_hsv(hue, LED_SATURATION, LED_VALUE),
{
    hsv_to_rgb(hue, LED_SATURATION, LED_VALUE)
}

/// What one tick decided: the LED color to write (best-effort) and whether
/// this tick logs the status line.
pub struct TickOutcome {
    pub led: (u8, u8, u8),
    pub log_status: bool,
}

/// The foreground loop's own state: the rainbow hue and the tick counter.
pub struct ForegroundLoop {
    hue: u8,
    loop_times: u64,
}

impl ForegroundLoop {
    pub closed spec fn hue(&self) -> u8 {
        self.hue
    }

    pub closed spec fn loop_times(&self) -> u64 {
        self.loop_times
    }

    pub fn new() -> (r: ForegroundLoop)
        ensures
            r.hue() == 0,
            r.loop_times() == 0,
    {
        ForegroundLoop { hue: 0, loop_times: 0 }
    }

    /// How many ticks have run.
    pub fn ticks(&self) -> (r: u64)
        ensures
            r == self.loop_times(),
    {
        self.loop_times
    }

    /// One tick: store the sampled temperature in the telemetry record
    /// (under the caller's lock), advance the hue by [`HUE_STEP`] wrapping
    /// modulo 256, pick the LED color for the new hue, and flag every
    /// [`STATUS_LOG_PERIOD`]-th tick for the status log line.
    pub fn tick(&mut self, telemetry: &mut Telemetry, temperature_centi: i32) -> (r: TickOutcome)
        requires
            old(self).loop_times() < u64::MAX,
        ensures
            *final(telemetry) == old(telemetry).with_temperature(temperature_centi),
            final(telemetry).temperature() == temperature_centi,
            final(telemetry).exit() == old(telemetry).exit(),
            final(self).hue() == ((old(self).hue() + HUE_STEP) % 256),
            r.led == rgb_of_hsv(final(self).hue(), LED_SATURATION, LED_VALUE),
            r.log_status == (old(self).loop_times() % STATUS_LOG_PERIOD == 0),
            final(self).loop_times() == old(self).loop_times() + 1,
    {
        telemetry.set_temperature(temperature_centi);
        self.hue = self.hue.wrapping_add(HUE_STEP);
        let led = rainbow_color(self.hue);
        let log_status = self.loop_times % STATUS_LOG_PERIOD == 0;
        self.loop_times = self.loop_times + 1;
        TickOutcome { led, log_status }
    }
}

} // verus!
