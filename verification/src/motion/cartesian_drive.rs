//! Termination of a feedback drive-to-coordinate motion.
//!
//! Every tick the motion checks its linear and angular tolerances. Each
//! check that passes once is remembered; the motion finishes when both
//! have passed, or when its optional timeout has been exceeded.

use vstd::prelude::*;

verus! {

/// Whether a motion started `elapsed_ns` ago has run past its timeout;
/// a motion without a timeout never times out.
pub open spec fn spec_timed_out(elapsed_ns: u128, timeout_ns: Option<u128>) -> bool {
    match timeout_ns {
        Some(t) => elapsed_ns > t,
        None => false,
    }
}

/// A motion with a timeout has timed out exactly when more time than the
/// timeout has elapsed; once timed out it stays timed out; a motion without
/// a timeout never times out.
pub proof fn lemma_timeout_law(elapsed_ns: u128, later_ns: u128, t: u128)
    ensures
        spec_timed_out(elapsed_ns, Some(t)) <==> elapsed_ns > t,
        !spec_timed_out(elapsed_ns, None),
        elapsed_ns <= later_ns && spec_timed_out(elapsed_ns, Some(t)) ==> spec_timed_out(
            later_ns,
            Some(t),
        ),
{
}

/// Settling flags of a drive-to-coordinate motion.
pub struct DriveSettling {
    linear_settled: bool,
    angular_settled: bool,
}

impl DriveSettling {
    pub closed spec fn spec_linear_settled(&self) -> bool {
        self.linear_settled
    }

    pub closed spec fn spec_angular_settled(&self) -> bool {
        self.angular_settled
    }

    /// A motion starts with neither tolerance met.
    pub fn new() -> (s: Self)
        ensures
            !s.spec_linear_settled(),
            !s.spec_angular_settled(),
    {
        DriveSettling { linear_settled: false, angular_settled: false }
    }

    /// One tick: record which tolerances are met now and decide whether
    /// the motion is finished (the drive is then stopped).
    pub fn step(
        &mut self,
        linear_within: bool,
        angular_within: bool,
        elapsed_ns: u128,
        timeout_ns: Option<u128>,
    ) -> (finished: bool)
        ensures
            final(self).spec_linear_settled() == (old(self).spec_linear_settled() || linear_within),
            final(self).spec_angular_settled() == (old(self).spec_angular_settled()
                || angular_within),
            finished == ((final(self).spec_linear_settled() && final(self).spec_angular_settled())
                || spec_timed_out(elapsed_ns, timeout_ns)),
    {
        if linear_within {
            self.linear_settled = true;
        }
        if angular_within {
            self.angular_settled = true;
        }
        let timed_out = match timeout_ns {
            Some(t) => elapsed_ns > t,
            None => false,
        };
        (self.linear_settled && self.angular_settled) || timed_out
    }
}

} // verus!
