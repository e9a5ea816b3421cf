//! Double-reverse 4-bar lift: sensor placeholder.

use vstd::prelude::*;

verus! {

/// Placeholder sensor for DR4B lifts driven entirely by motor encoders; it
/// never reports a position.
#[derive(Debug, Clone, Copy)]
pub struct NullSensor;

impl NullSensor {
    /// A null sensor has no reading: its position is always absent,
    /// whatever the unit it is asked in.
    pub fn position_degrees<N>(&self) -> (r: Option<N>)
        ensures
            r is None,
    {
        None
    }
}

} // verus!
