//! A named holder of one stepper, through which moves are coordinated.
use crate::stepper::Stepper;
use vstd::prelude::*;

verus! {

/// A stepper motor under a name.
pub struct MotionController<T> {
    stepper_motor: T,
    name: String,
}

impl<T> MotionController<T> where T: Stepper {
    pub closed spec fn spec_name(&self) -> Seq<char> {
        self.name@
    }

    pub closed spec fn spec_stepper(&self) -> T {
        self.stepper_motor
    }

    /// Puts `stepper` under the name `name`.
    pub fn new(name: String, stepper: T) -> (r: Self)
        ensures
            r.spec_name() == name@,
            r.spec_stepper() == stepper,
    {
        Self { stepper_motor: stepper, name }
    }

    /// The controller's name.
    pub fn name(&self) -> (r: &String)
        ensures
            r@ == self.spec_name(),
    {
        &self.name
    }
}

} // verus!
