//! Board-orchestration core for an ESP32-S3 style device: bus arbitration,
//! peripheral-sharing bookkeeping, the wireless-link state machine, the
//! short-range radio server's admission control and notifier, storage-mount
//! recovery, and the shared telemetry record.
use vstd::prelude::*;

pub mod board;
pub mod bus;
pub mod connectivity;
pub mod display;
pub mod expander;
pub mod foreground;
pub mod radio;
pub mod render;
pub mod status;
pub mod storage;
pub mod telemetry;

verus! {

/// Error taxonomy of the orchestration layer.
#[derive(Clone, Copy, Debug, PartialEq, Eq, Structural)]
pub enum Error {
    /// Resource contention on bus acquisition; the caller must back off or abort.
    BusBusy,
    /// Transaction-level hardware error; never retried internally.
    IoFailure,
    /// Input exceeds a bounded capacity, or the requested stack conflicts with
    /// the modem's current owner.
    ConfigRejected,
    /// Storage mount failed even after the single erase-and-retry attempt.
    MountFailure,
    /// A one-time hardware initialization failed; fatal to startup.
    DriverInitFailure,
}

impl Error {
    /// A short stable text for diagnostics.
    pub fn describe(&self) -> (r: &'static str)
        ensures
            r@ == match *self {
                Error::BusBusy => "bus busy"@,
                Error::IoFailure => "io failure"@,
                Error::ConfigRejected => "config rejected"@,
                Error::MountFailure => "mount failure"@,
                Error::DriverInitFailure => "driver init failure"@,
            },
    {
        match self {
            Error::BusBusy => "bus busy",
            Error::IoFailure => "io failure",
            Error::ConfigRejected => "config rejected",
            Error::MountFailure => "mount failure",
            Error::DriverInitFailure => "driver init failure",
        }
    }
}

} // verus!
