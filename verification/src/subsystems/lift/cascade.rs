//! Cascade (linear chain) lift: sensor placeholder.

use vstd::prelude::*;

verus! {

/// A sensor that never reports, used as the sensor type of a lift whose
/// position source is its own motor encoders.
#[derive(Debug, Clone, Copy)]
pub struct NullSensor;

impl NullSensor {
    /// A null sensor has no reading: its position is always absent,
    /// whatever the unit it is asked in.
    pub fn position_degrees<N>(&self) -> (r: Option<N>)
        ensures
            r is None,
    {
        None
    }
}

} // verus!
