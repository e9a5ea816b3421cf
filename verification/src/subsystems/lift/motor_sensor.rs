//! Selecting the lift's own motor encoders as the position source.

use vstd::prelude::*;

verus! {

/// Selects which motor (by index into the lift's motors) serves as the
/// position encoder.
#[derive(Debug, Clone, Copy)]
pub struct MotorIndex(pub usize);

/// Selects the average of all the lift's motor encoders as the position
/// source.
#[derive(Debug, Clone, Copy)]
pub struct AveragedMotorSensor;

} // verus!
