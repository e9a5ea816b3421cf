//! Targeting state shared by every lift type: the target height, the soft
//! height limits and whether the motors keep holding once settled.
//!
//! Heights are height keys (see the `lift` module documentation); key 0
//! stands for height zero.

use vstd::prelude::*;

verus! {

/// `x` clamped into `[lo, hi]`.
pub open spec fn spec_clamp(x: i64, lo: i64, hi: i64) -> i64 {
    if x < lo {
        lo
    } else if x > hi {
        hi
    } else {
        x
    }
}

/// Clamp a height into `[lo, hi]`. The limits must be ordered.
pub fn clamp_height(x: i64, lo: i64, hi: i64) -> (r: i64)
    requires
        lo <= hi,
    ensures
        r == spec_clamp(x, lo, hi),
{
    if x < lo {
        lo
    } else if x > hi {
        hi
    } else {
        x
    }
}

/// Clamping lands inside the limits, leaves heights already inside them
/// unchanged, and clamping twice is clamping once.
pub proof fn lemma_clamp_properties(x: i64, lo: i64, hi: i64)
    requires
        lo <= hi,
    ensures
        lo <= spec_clamp(x, lo, hi) <= hi,
        lo <= x <= hi ==> spec_clamp(x, lo, hi) == x,
        spec_clamp(spec_clamp(x, lo, hi), lo, hi) == spec_clamp(x, lo, hi),
{
}

/// Clamping moves a height below the lower limit up to that limit, a height
/// above the upper limit down to that limit, and preserves order: a lower
/// height never clamps above a higher one.
pub proof fn lemma_clamp_law(x: i64, y: i64, lo: i64, hi: i64)
    requires
        lo <= hi,
    ensures
        x < lo ==> spec_clamp(x, lo, hi) == lo,
        x > hi ==> spec_clamp(x, lo, hi) == hi,
        x <= y ==> spec_clamp(x, lo, hi) <= spec_clamp(y, lo, hi),
        spec_clamp(x, lo, hi) == x || spec_clamp(x, lo, hi) == lo || spec_clamp(x, lo, hi) == hi,
{
}

/// Targeting state of a lift.
pub struct LiftTarget {
    target: i64,
    min_height: i64,
    max_height: i64,
    hold_position: bool,
}

impl LiftTarget {
    pub closed spec fn spec_target(&self) -> i64 {
        self.target
    }

    pub closed spec fn spec_min_height(&self) -> i64 {
        self.min_height
    }

    pub closed spec fn spec_max_height(&self) -> i64 {
        self.max_height
    }

    pub closed spec fn spec_hold_position(&self) -> bool {
        self.hold_position
    }

    /// A fresh lift targets height zero, has soft limits `[0, max_height]`
    /// and holds position once settled.
    pub fn new(max_height: i64) -> (t: Self)
        ensures
            t.spec_target() == 0,
            t.spec_min_height() == 0,
            t.spec_max_height() == max_height,
            t.spec_hold_position(),
    {
        LiftTarget { target: 0, min_height: 0, max_height, hold_position: true }
    }

    /// Set the soft lower limit.
    pub fn with_min_height(self, height: i64) -> (t: Self)
        ensures
            t.spec_min_height() == height,
            t.spec_max_height() == self.spec_max_height(),
            t.spec_target() == self.spec_target(),
            t.spec_hold_position() == self.spec_hold_position(),
    {
        LiftTarget { min_height: height, ..self }
    }

    /// Set the soft upper limit.
    pub fn with_max_height(self, height: i64) -> (t: Self)
        ensures
            t.spec_max_height() == height,
            t.spec_min_height() == self.spec_min_height(),
            t.spec_target() == self.spec_target(),
            t.spec_hold_position() == self.spec_hold_position(),
    {
        LiftTarget { max_height: height, ..self }
    }

    /// When `false`, the motors coast once the controller has settled.
    pub fn with_hold_position(self, hold: bool) -> (t: Self)
        ensures
            t.spec_hold_position() == hold,
            t.spec_min_height() == self.spec_min_height(),
            t.spec_max_height() == self.spec_max_height(),
            t.spec_target() == self.spec_target(),
    {
        LiftTarget { hold_position: hold, ..self }
    }

    /// The current target height.
    pub fn target(&self) -> (h: i64)
        ensures
            h == self.spec_target(),
    {
        self.target
    }

    /// Target `height`, clamped to the soft limits (which must be ordered).
    pub fn go_to(&mut self, height: i64)
        requires
            old(self).spec_min_height() <= old(self).spec_max_height(),
        ensures
            final(self).spec_target() == spec_clamp(
                height,
                old(self).spec_min_height(),
                old(self).spec_max_height(),
            ),
            final(self).spec_min_height() == old(self).spec_min_height(),
            final(self).spec_max_height() == old(self).spec_max_height(),
            final(self).spec_hold_position() == old(self).spec_hold_position(),
    {
        self.target = clamp_height(height, self.min_height, self.max_height);
    }

    /// The soft limits narrowed by the limits of the lift's geometry, where
    /// it has them: the larger lower limit and the smaller upper limit.
    pub fn limits_within(&self, geo_min: Option<i64>, geo_max: Option<i64>) -> (r: (i64, i64))
        ensures
            r.0 == (match geo_min {
                Some(g) => if g > self.spec_min_height() { g } else { self.spec_min_height() },
                None => self.spec_min_height(),
            }),
            r.1 == (match geo_max {
                Some(g) => if g < self.spec_max_height() { g } else { self.spec_max_height() },
                None => self.spec_max_height(),
            }),
    {
        let lo = match geo_min {
            Some(g) => if g > self.min_height { g } else { self.min_height },
            None => self.min_height,
        };
        let hi = match geo_max {
            Some(g) => if g < self.max_height { g } else { self.max_height },
            None => self.max_height,
        };
        (lo, hi)
    }

    /// Target a height already clamped to the lift's limits: `clamped` when
    /// the geometry can reach it, and the geometric maximum `geo_max`
    /// otherwise.
    pub fn go_to_reachable(&mut self, clamped: i64, reachable: bool, geo_max: i64)
        ensures
            final(self).spec_target() == (if reachable { clamped } else { geo_max }),
            final(self).spec_min_height() == old(self).spec_min_height(),
            final(self).spec_max_height() == old(self).spec_max_height(),
            final(self).spec_hold_position() == old(self).spec_hold_position(),
    {
        self.target = if reachable { clamped } else { geo_max };
    }

    /// Whether the controller drives the motors this tick: always, except
    /// once settled on a lift that does not hold position.
    pub fn drives_motors(&self, settled: bool) -> (b: bool)
        ensures
            b == !(settled && !self.spec_hold_position()),
    {
        !(settled && !self.hold_position)
    }

    /// After zeroing the sensor at the hard stop the lift targets `base`,
    /// the height of the hard stop.
    pub fn zero(&mut self, base: i64)
        ensures
            final(self).spec_target() == base,
            final(self).spec_min_height() == old(self).spec_min_height(),
            final(self).spec_max_height() == old(self).spec_max_height(),
            final(self).spec_hold_position() == old(self).spec_hold_position(),
    {
        self.target = base;
    }
}

} // verus!
