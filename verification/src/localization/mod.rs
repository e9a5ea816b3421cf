//! Support for the pose estimators of the robot.
//!
//! The particle filter draws its noise from [`rng::XorShift64`], a small
//! deterministic generator that needs neither the standard library nor an
//! allocator.

pub mod ekf;
pub mod fusion;
pub mod rng;
