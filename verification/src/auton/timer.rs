//! Deadline arithmetic for time-boxed autonomous actions.
//!
//! An action timer starts when it is created and carries a timeout. The
//! robot reads the elapsed time from its monotonic clock; the decisions
//! below take that reading (in nanoseconds) as an argument, so they hold
//! for every value the clock may return.

use vstd::prelude::*;

verus! {

/// Whether the deadline has been reached: `elapsed` has caught up with
/// `timeout`.
pub open spec fn spec_expired(elapsed_ns: u128, timeout_ns: u128) -> bool {
    elapsed_ns >= timeout_ns
}

/// Time left before the deadline, or zero once it has passed.
pub open spec fn spec_remaining(elapsed_ns: u128, timeout_ns: u128) -> u128 {
    if elapsed_ns >= timeout_ns {
        0
    } else {
        (timeout_ns - elapsed_ns) as u128
    }
}

/// Returns `true` if the deadline has been exceeded.
pub fn timer_expired(elapsed_ns: u128, timeout_ns: u128) -> (b: bool)
    ensures
        b == spec_expired(elapsed_ns, timeout_ns),
{
    elapsed_ns >= timeout_ns
}

/// Remaining time before expiry; zero if already expired.
pub fn timer_remaining(elapsed_ns: u128, timeout_ns: u128) -> (r: u128)
    ensures
        r == spec_remaining(elapsed_ns, timeout_ns),
{
    timeout_ns.saturating_sub(elapsed_ns)
}

/// A timer has expired exactly when no time remains, the remaining time
/// never exceeds the timeout, and once expired a timer stays expired.
pub proof fn lemma_expired_iff_nothing_remains(elapsed_ns: u128, later_ns: u128, timeout_ns: u128)
    requires
        elapsed_ns <= later_ns,
    ensures
        spec_expired(elapsed_ns, timeout_ns) <==> spec_remaining(elapsed_ns, timeout_ns) == 0,
        spec_remaining(elapsed_ns, timeout_ns) <= timeout_ns,
        spec_expired(elapsed_ns, timeout_ns) ==> spec_expired(later_ns, timeout_ns),
        spec_remaining(later_ns, timeout_ns) <= spec_remaining(elapsed_ns, timeout_ns),
{
}

/// Before the deadline the elapsed and remaining times add up to the
/// timeout; at or past it nothing remains. A timer with a zero timeout is
/// expired from the start.
pub proof fn lemma_remaining_law(elapsed_ns: u128, timeout_ns: u128)
    ensures
        elapsed_ns < timeout_ns ==> !spec_expired(elapsed_ns, timeout_ns)
            && spec_remaining(elapsed_ns, timeout_ns) + elapsed_ns == timeout_ns,
        elapsed_ns >= timeout_ns ==> spec_expired(elapsed_ns, timeout_ns)
            && spec_remaining(elapsed_ns, timeout_ns) == 0,
        spec_expired(elapsed_ns, 0),
{
}

} // verus!
