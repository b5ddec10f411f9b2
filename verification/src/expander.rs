//! The two-wire-bus I/O expander: sixteen lines behind one bus handle.
//!
//! This component owns the expander's latched registers and decides, for every
//! pin operation, the 16-bit register image that must go out on the two-wire
//! bus. The caller performs the actual bus transaction with the image returned
//! here; a transaction error surfaces as [`Error::IoFailure`] at that edge and
//! is never retried. Concurrent callers must serialize through the lock that
//! guards this component, since the bus protocol is not reentrant-safe; with
//! exclusive access (`&mut self`) no two transactions can interleave.
use vstd::prelude::*;

use crate::Error;
use crate::bus::BusHandle;

verus! {

/// The line at `pin` reads as logic high in the 16-bit register image.
pub open spec fn line_high(register: u16, pin: u8) -> bool {
    (register >> (pin as u16)) & 1 == 1
}

/// A granted output line: an (expander, pin-number) pair whose level is
/// changed only through the owning [`GpioExpanderPinSource`].
pub struct PinHandle {
    pin: u8,
}

impl PinHandle {
    /// The pin number on the expander, below 16.
    pub closed spec fn id(&self) -> u8 {
        self.pin
    }

    pub fn pin_index(&self) -> (r: u8)
        ensures
            r == self.id(),
    {
        self.pin
    }
}

/// The expander: direction configuration, the latched output register, and
/// the bookkeeping of which lines have been granted as [`PinHandle`]s.
pub struct GpioExpanderPinSource {
    handle: BusHandle,
    configured: bool,
    direction: u16,
    output_state: u16,
    granted: u16,
}

impl GpioExpanderPinSource {
    /// `configure` has run (exactly once).
    pub closed spec fn configured(&self) -> bool {
        self.configured
    }

    /// The direction mask: a set bit means the line drives an output.
    pub closed spec fn direction(&self) -> u16 {
        self.direction
    }

    /// The latched 16-bit output register image.
    pub closed spec fn output_state(&self) -> u16 {
        self.output_state
    }

    /// A [`PinHandle`] for this line has been handed out.
    pub closed spec fn line_granted(&self, pin: u8) -> bool {
        line_high(self.granted, pin)
    }

    /// Wrap the two-wire bus handle. The expander requires the exclusive
    /// two-wire handle from the arbiter; all sixteen lines are multiplexed
    /// over it.
    pub fn new(handle: BusHandle) -> (r: GpioExpanderPinSource)
        requires
            handle is I2c,
        ensures
            !r.configured(),
            r.output_state() == 0,
            forall|pin: u8| pin < 16 ==> !r.line_granted(pin),
    {
        proof {
            lemma_zero_bits();
        }
        GpioExpanderPinSource { handle, configured: false, direction: 0, output_state: 0, granted: 0 }
    }

    /// Set all sixteen lines' directions at once. Must run exactly once,
    /// before the first pin use; a second call is refused with
    /// [`Error::ConfigRejected`] and changes nothing. The returned image is
    /// what the caller writes to the expander's configuration register.
    pub fn configure(&mut self, direction_mask: u16) -> (r: Result<u16, Error>)
        ensures
            r is Ok <==> !old(self).configured(),
            r matches Ok(image) ==> image == direction_mask && final(self).configured()
                && final(self).direction() == direction_mask,
            r matches Err(e) ==> e == Error::ConfigRejected && *final(self) == *old(self),
            final(self).output_state() == old(self).output_state(),
            forall|pin: u8| final(self).line_granted(pin) == old(self).line_granted(pin),
    {
        if self.configured {
            Err(Error::ConfigRejected)
        } else {
            self.configured = true;
            self.direction = direction_mask;
            Ok(direction_mask)
        }
    }

    /// Hand out the output line `pin`. Refused with [`Error::ConfigRejected`]
    /// before `configure`, or when the direction mask does not make the line
    /// an output; refused with [`Error::BusBusy`] when the line was already
    /// granted. At most one handle per line exists at a time.
    pub fn output_pin(&mut self, pin: u8) -> (r: Result<PinHandle, Error>)
        requires
            pin < 16,
        ensures
            r is Ok <==> old(self).configured() && line_high(old(self).direction(), pin)
                && !old(self).line_granted(pin),
            r matches Ok(h) ==> h.id() == pin && final(self).line_granted(pin),
            r matches Err(e) ==> *final(self) == *old(self) && (e == Error::BusBusy <==> (
            old(self).configured() && line_high(old(self).direction(), pin) && old(
                self,
            ).line_granted(pin))) && (e == Error::BusBusy || e == Error::ConfigRejected),
            forall|j: u8|
                j < 16 && j != pin ==> final(self).line_granted(j) == old(self).line_granted(j),
            final(self).configured() == old(self).configured(),
            final(self).direction() == old(self).direction(),
            final(self).output_state() == old(self).output_state(),
    {
        if !self.configured {
            return Err(Error::ConfigRejected);
        }
        if !read_line(self.direction, pin) {
            return Err(Error::ConfigRejected);
        }
        if read_line(self.granted, pin) {
            return Err(Error::BusBusy);
        }
        proof {
            lemma_bit_set(self.granted, pin as u16);
        }
        self.granted = self.granted | (1u16 << (pin as u16));
        Ok(PinHandle { pin })
    }

    /// Drive a granted line to `level`. The returned image is the new output
    /// register that the caller transmits over the two-wire bus; only the one
    /// line changes.
    pub fn set_level(&mut self, pin: &PinHandle, level: bool) -> (image: u16)
        requires
            pin.id() < 16,
            old(self).line_granted(pin.id()),
        ensures
            image == final(self).output_state(),
            line_high(final(self).output_state(), pin.id()) == level,
            forall|j: u8|
                j < 16 && j != pin.id() ==> line_high(final(self).output_state(), j) == line_high(
                    old(self).output_state(),
                    j,
                ),
            final(self).configured() == old(self).configured(),
            final(self).direction() == old(self).direction(),
            forall|j: u8| final(self).line_granted(j) == old(self).line_granted(j),
    {
        let p = pin.pin_index();
        self.output_state = apply_line(self.output_state, p, level);
        self.output_state
    }

    /// The level a granted line is currently driven to.
    pub fn get_level(&self, pin: &PinHandle) -> (r: bool)
        requires
            pin.id() < 16,
            self.line_granted(pin.id()),
        ensures
            r == line_high(self.output_state(), pin.id()),
    {
        read_line(self.output_state, pin.pin_index())
    }

    /// The whole latched output image, for a periodic status log line.
    pub fn output_image(&self) -> (r: u16)
        ensures
            r == self.output_state(),
    {
        self.output_state
    }
}

/// The register image after driving one line to `level`: exactly that bit is
/// set or cleared, every other line keeps its level. This is the one place
/// the output image is computed, for the model above and for whoever
/// transmits the image on the wire.
pub fn apply_line(image: u16, pin: u8, level: bool) -> (r: u16)
    requires
        pin < 16,
    ensures
        line_high(r, pin) == level,
        forall|j: u8| j < 16 && j != pin ==> line_high(r, j) == line_high(image, j),
{
    if level {
        proof {
            lemma_bit_set(image, pin as u16);
        }
        image | (1u16 << (pin as u16))
    } else {
        proof {
            lemma_bit_clear(image, pin as u16);
        }
        image & !(1u16 << (pin as u16))
    }
}

/// Read one bit of a register image.
fn read_line(register: u16, pin: u8) -> (r: bool)
    requires
        pin < 16,
    ensures
        r == line_high(register, pin),
{
    (register >> (pin as u16)) & 1 == 1
}

proof fn lemma_zero_bits()
    by (bit_vector)
    ensures
        forall|j: u8| j < 16 ==> !line_high(0u16, j),
{
}

proof fn lemma_bit_set(v: u16, p: u16)
    by (bit_vector)
    requires
        p < 16,
    ensures
        ((v | (1u16 << p)) >> p) & 1 == 1,
        forall|j: u16| j < 16 && j != p ==> ((v | (1u16 << p)) >> j) & 1 == (v >> j) & 1,
{
}

proof fn lemma_bit_clear(v: u16, p: u16)
    by (bit_vector)
    requires
        p < 16,
    ensures
        ((v & !(1u16 << p)) >> p) & 1 == 0,
        forall|j: u16| j < 16 && j != p ==> ((v & !(1u16 << p)) >> j) & 1 == (v >> j) & 1,
{
}

} // verus!
