//! Claw subsystem (pneumatic).
//!
//! Wraps a [`Solenoid`] so the claw can be opened and closed with named
//! methods: the claw is closed exactly when the piston is extended.

use vstd::prelude::*;
use crate::hardware::pneumatics::Solenoid;

verus! {

pub struct Claw {
    solenoid: Solenoid,
}

impl Claw {
    /// Whether the claw is closed (gripping).
    pub closed spec fn spec_is_closed(&self) -> bool {
        self.solenoid.spec_is_extended()
    }

    /// Wrap a solenoid; the claw starts in whatever state the solenoid is in.
    pub fn new(solenoid: Solenoid) -> (c: Self)
        ensures
            c.spec_is_closed() == solenoid.spec_is_extended(),
    {
        Claw { solenoid }
    }

    /// Open the claw (release game object).
    pub fn open(&mut self)
        ensures
            !final(self).spec_is_closed(),
    {
        self.solenoid.retract();
    }

    /// Close the claw (grab game object).
    pub fn close(&mut self)
        ensures
            final(self).spec_is_closed(),
    {
        self.solenoid.extend();
    }

    /// Toggle open/close state.
    pub fn toggle(&mut self)
        ensures
            final(self).spec_is_closed() == !old(self).spec_is_closed(),
    {
        self.solenoid.toggle();
    }

    /// Returns `true` if the claw is currently closed.
    pub fn is_closed(&self) -> (r: bool)
        ensures
            r == self.spec_is_closed(),
    {
        self.solenoid.is_extended()
    }
}

} // verus!
