//! Lift subsystem framework: named height presets and the targeting state
//! shared by every lift type.
//!
//! Heights enter this module as *height keys*: signed integers whose order
//! is the order of the heights they stand for. Two heights are equal exactly
//! when their keys are equal, and one is taller exactly when its key is
//! larger; key 0 stands for height zero. The robot code maps its measured
//! heights to keys and back.

pub mod cascade;
pub mod dr4b;
pub mod motor_sensor;
pub mod presets;
pub mod sensor;
pub mod target;
