//! Low-level hardware models.

pub mod pneumatics;
