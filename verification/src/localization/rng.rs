//! xorshift64 pseudo-random generator (shifts 13, 7, 17).

use vstd::prelude::*;

verus! {

/// One step of the xorshift64 generator.
pub open spec fn xorshift_step(x: u64) -> u64 {
    let a = x ^ (x << 13u64);
    let b = a ^ (a >> 7u64);
    b ^ (b << 17u64)
}

/// Deterministic generator state.
pub struct XorShift64 {
    state: u64,
}

impl XorShift64 {
    /// The current state; also the value most recently drawn.
    pub closed spec fn spec_state(&self) -> u64 {
        self.state
    }

    /// A generator seeded with `seed`.
    pub fn new(seed: u64) -> (g: Self)
        ensures
            g.spec_state() == seed,
    {
        XorShift64 { state: seed }
    }

    /// Advance the generator and return the new state.
    pub fn next_u64(&mut self) -> (r: u64)
        ensures
            r == xorshift_step(old(self).spec_state()),
            final(self).spec_state() == r,
    {
        let mut x = self.state;
        x = x ^ (x << 13u64);
        x = x ^ (x >> 7u64);
        x = x ^ (x << 17u64);
        self.state = x;
        x
    }

    /// Advance the generator and return the top 53 bits of the new state:
    /// a uniformly spread integer below 2^53, the mantissa of a draw from
    /// [0, 1).
    pub fn next_mantissa(&mut self) -> (r: u64)
        ensures
            r == xorshift_step(old(self).spec_state()) >> 11u64,
            final(self).spec_state() == xorshift_step(old(self).spec_state()),
            r < 0x20_0000_0000_0000u64,
    {
        let x = self.next_u64();
        assert(x >> 11u64 < 0x20_0000_0000_0000u64) by (bit_vector);
        x >> 11u64
    }
}

/// A nonzero state never steps to zero, so a generator seeded with a
/// nonzero value never gets stuck; zero is a fixed point.
pub proof fn lemma_step_nonzero(x: u64)
    ensures
        x != 0 ==> xorshift_step(x) != 0,
        x == 0 ==> xorshift_step(x) == 0,
{
    let a = x ^ (x << 13u64);
    let b = a ^ (a >> 7u64);
    assert(x != 0 ==> a != 0) by (bit_vector)
        requires a == x ^ (x << 13u64);
    assert(a != 0 ==> b != 0) by (bit_vector)
        requires b == a ^ (a >> 7u64);
    assert(b != 0 ==> b ^ (b << 17u64) != 0) by (bit_vector);
    assert(x == 0 ==> xorshift_step(x) == 0) by (bit_vector);
}

/// The step is one-to-one: two different states never step to the same
/// state, so the generator permutes its states and never merges two
/// sequences.
pub proof fn lemma_step_injective(x: u64, y: u64)
    ensures
        xorshift_step(x) == xorshift_step(y) ==> x == y,
{
    let ax = x ^ (x << 13u64);
    let ay = y ^ (y << 13u64);
    let bx = ax ^ (ax >> 7u64);
    let by_ = ay ^ (ay >> 7u64);
    assert(bx ^ (bx << 17u64) == by_ ^ (by_ << 17u64) ==> bx == by_) by (bit_vector);
    assert(ax ^ (ax >> 7u64) == ay ^ (ay >> 7u64) ==> ax == ay) by (bit_vector);
    assert(x ^ (x << 13u64) == y ^ (y << 13u64) ==> x == y) by (bit_vector);
}

} // verus!
