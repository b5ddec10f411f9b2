//! The one shared telemetry record: the last sampled temperature and the exit
//! flag.
//!
//! The record itself is a plain value; the process wraps it in a single
//! mutual-exclusion lock and every task performs a full lock/access/unlock
//! around each call here, so reads and writes never interleave. Temperature is
//! carried in hundredths of a degree Celsius, so the record holds no floating
//! point.
use vstd::prelude::*;

verus! {

pub struct Telemetry {
    temperature_centi: i32,
    exit: bool,
}

impl Telemetry {
    /// The stored temperature, in hundredths of a degree Celsius.
    pub closed spec fn temperature(&self) -> i32 {
        self.temperature_centi
    }

    /// The cancellation flag for the background notifier task.
    pub closed spec fn exit(&self) -> bool {
        self.exit
    }

    /// The record after storing temperature `t`.
    pub closed spec fn with_temperature(self, t: i32) -> Telemetry {
        Telemetry { temperature_centi: t, ..self }
    }

    /// The record after setting the exit flag to `e`.
    pub closed spec fn with_exit(self, e: bool) -> Telemetry {
        Telemetry { exit: e, ..self }
    }

    /// A fresh record: zero temperature, exit not requested.
    pub fn new() -> (r: Telemetry)
        ensures
            r.temperature() == 0,
            !r.exit(),
    {
        Telemetry { temperature_centi: 0, exit: false }
    }

    /// Store a newly sampled temperature; the exit flag is untouched.
    pub fn set_temperature(&mut self, t: i32)
        ensures
            *final(self) == old(self).with_temperature(t),
            final(self).temperature() == t,
            final(self).exit() == old(self).exit(),
    {
        self.temperature_centi = t;
    }

    /// Read the stored temperature back.
    pub fn read_temperature(&self) -> (r: i32)
        ensures
            r == self.temperature(),
    {
        self.temperature_centi
    }

    /// Set or clear the exit flag; the temperature is untouched.
    pub fn set_exit(&mut self, e: bool)
        ensures
            *final(self) == old(self).with_exit(e),
            final(self).exit() == e,
            final(self).temperature() == old(self).temperature(),
    {
        self.exit = e;
    }

    /// Whether the notifier task has been asked to stop.
    pub fn exit_requested(&self) -> (r: bool)
        ensures
            r == self.exit(),
    {
        self.exit
    }

    /// Both fields at once, for a task that holds the lock only briefly.
    pub fn snapshot(&self) -> (r: (i32, bool))
        ensures
            r.0 == self.temperature(),
            r.1 == self.exit(),
    {
        (self.temperature_centi, self.exit)
    }
}

/// Law: the telemetry round trip. Writing temperature `t` and reading it back,
/// with no writer in between, returns exactly `t`, and leaves the exit flag as
/// it was.
pub proof fn lemma_telemetry_round_trip(rec: Telemetry, t: i32)
    ensures
        rec.with_temperature(t).temperature() == t,
        rec.with_temperature(t).exit() == rec.exit(),
{
}

} // verus!
