//! Measurement selection for the extended Kalman filter.

use vstd::prelude::*;

verus! {

/// Which of the four wall-facing distance sensors a measurement comes from.
#[derive(Debug, Clone, Copy, PartialEq, Eq, Structural)]
pub enum SensorDir {
    North,
    East,
    South,
    West,
}

} // verus!
