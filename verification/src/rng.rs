//! A small deterministic pseudo-random stream for the wander recipe and
//! the firing jitter.  The simulation takes randomness from this explicit
//! state so every tick is a pure function of its inputs.

use vstd::prelude::*;

use crate::fx::SCALE;

verus! {

/// Multiplier of the linear congruential step.
pub const LCG_MUL: u64 = 6364136223846793005;

/// Increment of the linear congruential step.
pub const LCG_INC: u64 = 1442695040888963407;

/// The stream's state after one step.
pub open spec fn lcg_next_s(s: u64) -> u64 {
    vstd::wrapping::u64_specs::wrapping_add(
        vstd::wrapping::u64_specs::wrapping_mul(s, LCG_MUL),
        LCG_INC,
    )
}

/// The fixed-point draw a state yields: its top sixteen bits, a value in
/// `[0, SCALE)` standing for the half-open unit interval.
pub open spec fn lcg_unit_s(s: u64) -> int {
    (s >> 48) as int
}

/// A draw lies in `[0, SCALE)`.
pub proof fn lemma_lcg_unit_bounded(s: u64)
    ensures
        0 <= lcg_unit_s(s) < SCALE,
{
    assert(s >> 48 < 65536) by (bit_vector);
}

/// A linear congruential pseudo-random stream.
#[derive(Clone, Copy, Debug, PartialEq, Eq, Structural)]
pub struct Lcg {
    pub state: u64,
}

impl Lcg {
    /// A stream seeded with `seed`.
    pub fn new(seed: u64) -> (r: Lcg)
        ensures
            r == (Lcg { state: seed }),
    {
        Lcg { state: seed }
    }

    /// Draws a fixed-point value in `[0, SCALE)`.
    pub fn unit_fx(&mut self) -> (r: i64)
        ensures
            final(self).state == lcg_next_s(old(self).state),
            r == lcg_unit_s(final(self).state),
            0 <= r < SCALE,
    {
        self.state = self.state.wrapping_mul(LCG_MUL).wrapping_add(LCG_INC);
        let s: u64 = self.state;
        let top: u64 = s >> 48;
        proof {
            assert(s >> 48 < 65536) by (bit_vector);
        }
        top as i64
    }
}

} // verus!
