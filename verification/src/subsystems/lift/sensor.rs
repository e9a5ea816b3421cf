//! Motor-encoder position feedback for a lift.

use vstd::prelude::*;

verus! {

/// Uses the built-in encoder of one of the lift's motors, named by its
/// index in the lift's motors.
pub struct MotorEncoder {
    pub(crate) motor_index: usize,
}

impl MotorEncoder {
    /// Index of the motor whose encoder is read.
    pub closed spec fn spec_motor_index(&self) -> usize {
        self.motor_index
    }

    /// Use motor at `motor_index` inside the lift's motors.
    pub fn new(motor_index: usize) -> (e: Self)
        ensures
            e.spec_motor_index() == motor_index,
    {
        MotorEncoder { motor_index }
    }

    /// Index of the motor whose encoder is read.
    pub fn motor_index(&self) -> (i: usize)
        ensures
            i == self.spec_motor_index(),
    {
        self.motor_index
    }
}

} // verus!
