//! The stepper interface: direction, and the operations of a step sequencer.
use crate::error::NoStepsRemaining;
use crate::protocol::RegisterWrite;
use vstd::prelude::*;

verus! {

/// Direction of the stepper: CW = clockwise, CCW = counter-clockwise.
#[derive(Clone, Copy, Debug, PartialEq, Eq, Structural)]
pub enum Direction {
    CW,
    CCW,
}

/// What one step asks of the caller: apply the direction change, if any,
/// then pulse the step line high and low.
#[derive(Clone, Copy, Debug, PartialEq, Eq, Structural)]
pub struct StepPulse {
    /// The GPIO line that carries the step pulse.
    pub pin: u8,
    /// The register write that switches direction before the pulse.
    pub direction_change: Option<RegisterWrite>,
}

/// A step sequencer: it is given a signed number of steps to make and makes
/// them one at a time.
pub trait Stepper {
    /// Sets the signed number of steps still to make; positive advances,
    /// negative retreats.
    fn set_steps_to_move(&mut self, steps: i32);

    /// Makes one step toward the target, or reports that none remain.
    fn step(&mut self) -> Result<StepPulse, NoStepsRemaining>;

    /// Switches to `direction`; returns the register write that does it, or
    /// nothing where the direction is already the requested one.
    fn set_direction(&mut self, direction: Direction) -> Option<RegisterWrite>;
}

/// A stepper that has to be activated before it moves.
pub trait Activatable {
    fn activate();
}

} // verus!
