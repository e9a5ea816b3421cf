//! Single-acting pneumatic solenoid.
//!
//! The library keeps the commanded state of the valve; the application
//! writes that state to the digital output port after each command.

use vstd::prelude::*;

verus! {

/// Commanded state of a pneumatic solenoid valve.
pub struct Solenoid {
    extended: bool,
}

impl Solenoid {
    /// Whether the piston is commanded out.
    pub closed spec fn spec_is_extended(&self) -> bool {
        self.extended
    }

    /// A solenoid starts retracted (output low).
    pub fn new() -> (s: Self)
        ensures
            !s.spec_is_extended(),
    {
        Solenoid { extended: false }
    }

    /// Drive the piston out.
    pub fn extend(&mut self)
        ensures
            final(self).spec_is_extended(),
    {
        self.extended = true;
    }

    /// Pull the piston in.
    pub fn retract(&mut self)
        ensures
            !final(self).spec_is_extended(),
    {
        self.extended = false;
    }

    /// Flip the commanded state.
    pub fn toggle(&mut self)
        ensures
            final(self).spec_is_extended() == !old(self).spec_is_extended(),
    {
        self.extended = !self.extended;
    }

    /// Returns `true` while the piston is commanded out.
    pub fn is_extended(&self) -> (r: bool)
        ensures
            r == self.spec_is_extended(),
    {
        self.extended
    }
}

} // verus!
