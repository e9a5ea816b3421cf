//! Motion utilities.

pub mod cartesian_drive;
pub mod distance_sensor;
