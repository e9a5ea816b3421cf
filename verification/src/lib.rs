//! Controls library for a VEX V5 competition robot: lift presets and
//! targeting, autonomous routes and their execution plan, pneumatic
//! subsystems, sensor-gated waits and the deterministic random source of
//! the particle filter.
//!
//! Everything here works on integers, booleans, strings and collections.
//! Quantities that the robot measures as floating-point numbers (heights,
//! distances, headings) enter the library either as opaque payloads that are
//! carried but never computed on, or as integer keys that order them.

pub mod hardware;
pub mod subsystems;
pub mod auton;
pub mod localization;
pub mod motion;
pub mod logger;
