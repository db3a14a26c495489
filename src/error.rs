//! Errors of the driver.
use vstd::prelude::*;

verus! {

/// What can go wrong on the bus, on the GPIO lines, or in the device's state.
#[derive(Clone, Copy, Debug, PartialEq, Eq, Structural)]
pub enum DriverError {
    /// Bytes actually written or read differ from the expected frame length.
    FrameLengthMismatch,
    /// The channel kept reporting I/O failures until the retries ran out.
    TransportIoError,
    /// The write counter did not advance after a write.
    WriteVerificationFailure,
    /// A GPIO chip or line could not be acquired.
    GpioConfigurationError,
    /// A decoded status implies a configuration that damages the hardware.
    UnsafeConfigurationDetected,
}

/// The step sequencer has no steps left to make.
#[derive(Clone, Copy, Debug, PartialEq, Eq, Structural)]
pub struct NoStepsRemaining;

} // verus!
