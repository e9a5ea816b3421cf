//! Robot specific subsystems.

pub mod claw;
pub mod lift;
