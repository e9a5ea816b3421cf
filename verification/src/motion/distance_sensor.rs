//! Waiting on a distance sensor.
//!
//! The robot polls its distance sensor every executor tick and resolves the
//! wait once the reading crosses a threshold. This module decides, for one
//! poll, whether the wait is over.

use vstd::prelude::*;

verus! {

/// Comparison direction for the threshold.
#[derive(Debug, Clone, Copy, PartialEq, Eq, Structural)]
pub enum DistanceOp {
    /// Resolve when `reading < threshold_mm`.
    LessThan,
    /// Resolve when `reading > threshold_mm`.
    GreaterThan,
}

/// Whether `reading_mm` satisfies `op` against `threshold_mm`.
pub open spec fn spec_satisfied(op: DistanceOp, reading_mm: u32, threshold_mm: u32) -> bool {
    match op {
        DistanceOp::LessThan => reading_mm < threshold_mm,
        DistanceOp::GreaterThan => reading_mm > threshold_mm,
    }
}

/// `LessThan` holds exactly for readings below the threshold and
/// `GreaterThan` exactly for readings above it; a reading equal to the
/// threshold satisfies neither, and any reading satisfies at most one.
/// Moving a reading further past the threshold keeps it satisfied.
pub proof fn lemma_comparison_law(r: u32, r2: u32, t: u32)
    ensures
        spec_satisfied(DistanceOp::LessThan, r, t) <==> r < t,
        spec_satisfied(DistanceOp::GreaterThan, r, t) <==> r > t,
        !(spec_satisfied(DistanceOp::LessThan, r, t) && spec_satisfied(DistanceOp::GreaterThan, r, t)),
        r2 >= r && spec_satisfied(DistanceOp::GreaterThan, r, t) ==> spec_satisfied(
            DistanceOp::GreaterThan,
            r2,
            t,
        ),
        r2 <= r && spec_satisfied(DistanceOp::LessThan, r, t) ==> spec_satisfied(
            DistanceOp::LessThan,
            r2,
            t,
        ),
{
}

impl DistanceOp {
    /// Whether `reading_mm` satisfies this comparison against `threshold_mm`.
    pub fn satisfied(self, reading_mm: u32, threshold_mm: u32) -> (b: bool)
        ensures
            b == spec_satisfied(self, reading_mm, threshold_mm),
    {
        match self {
            DistanceOp::LessThan => reading_mm < threshold_mm,
            DistanceOp::GreaterThan => reading_mm > threshold_mm,
        }
    }
}

/// One poll of a distance wait. `reading_mm` is the sensor's answer, or
/// `None` when the sensor reported an error. Returns `true` when the wait
/// is over; a failed read keeps waiting.
pub fn poll_distance(op: DistanceOp, threshold_mm: u32, reading_mm: Option<u32>) -> (ready: bool)
    ensures
        ready == (reading_mm matches Some(d) && spec_satisfied(op, d, threshold_mm)),
{
    match reading_mm {
        Some(d) => op.satisfied(d, threshold_mm),
        None => false,
    }
}

} // verus!
