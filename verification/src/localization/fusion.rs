//! Sensor observation bundle of the fused localizer.

use vstd::prelude::*;

verus! {

/// All sensor inputs for one localization cycle; `None` marks an
/// unavailable or out-of-range sensor. Readings are carried in the robot's
/// measurement type `N`: the IMU heading in radians, distances in inches
/// from each sensor face to the wall it faces.
#[derive(Debug, Clone, Copy)]
pub struct SensorObs<N> {
    pub imu_heading_rad: Option<N>,
    pub north_in: Option<N>,
    pub east_in: Option<N>,
    pub south_in: Option<N>,
    pub west_in: Option<N>,
}

/// 1 when a reading is present, 0 otherwise.
pub open spec fn present<N>(r: Option<N>) -> nat {
    if r is Some { 1 } else { 0 }
}

impl<N> Default for SensorObs<N> {
    fn default() -> (o: Self)
        ensures
            o.imu_heading_rad is None,
            o.north_in is None,
            o.east_in is None,
            o.south_in is None,
            o.west_in is None,
    {
        SensorObs { imu_heading_rad: None, north_in: None, east_in: None, south_in: None, west_in: None }
    }
}

impl<N> SensorObs<N> {
    /// Count how many distance sensors have readings (the IMU heading is
    /// not a distance and does not count).
    pub fn valid_distance_count(&self) -> (n: usize)
        ensures
            n == present(self.north_in) + present(self.east_in) + present(self.south_in)
                + present(self.west_in),
    {
        let mut n: usize = 0;
        if self.north_in.is_some() {
            n = n + 1;
        }
        if self.east_in.is_some() {
            n = n + 1;
        }
        if self.south_in.is_some() {
            n = n + 1;
        }
        if self.west_in.is_some() {
            n = n + 1;
        }
        n
    }
}

} // verus!
