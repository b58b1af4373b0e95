//! Per-entity xorshift32 pseudo-random generator used by enemy behaviour
//! (bee speeds, crab climbs, hive spawns). Seeded from spawn coordinates so
//! behaviour is reproducible while still varying between instances.

use vstd::prelude::*;

verus! {

/// Bits forced on in every seed so the state is never zero.
pub const SEED_MIX: u32 = 0x9E37_79B9;

/// One xorshift32 step: `x ^= x << 13; x ^= x >> 17; x ^= x << 5`.
pub open spec fn xorshift(s: u32) -> u32 {
    let a = s ^ (s << 13u32);
    let b = a ^ (a >> 17u32);
    b ^ (b << 5u32)
}

/// Draw in `[lo, hi)` from generator state `s` (`lo` when the range is
/// empty): `lo + next % (hi - lo)`, where `next` is the stepped state.
pub open spec fn range_value(s: u32, lo: int, hi: int) -> int {
    if hi <= lo {
        lo
    } else {
        lo + (xorshift(s) as int) % (hi - lo)
    }
}

/// Tiny xorshift32 generator.
#[derive(Clone, Copy, Debug)]
pub struct EnemyRng {
    state: u32,
}

impl EnemyRng {
    /// The generator's current state.
    pub closed spec fn spec_state(&self) -> u32 {
        self.state
    }

    /// The generator seeded with `seed`.
    pub closed spec fn spec_new(seed: u32) -> EnemyRng {
        EnemyRng { state: seed | SEED_MIX }
    }

    /// The generator in state `s`.
    pub closed spec fn spec_with_state(s: u32) -> EnemyRng {
        EnemyRng { state: s }
    }

    /// A generator is determined by its state.
    pub proof fn lemma_state(r: EnemyRng)
        ensures
            r == Self::spec_with_state(r.spec_state()),
            forall|s: u32| #[trigger] Self::spec_with_state(s).spec_state() == s,
            forall|seed: u32| #[trigger] Self::spec_new(seed) == Self::spec_with_state(seed | SEED_MIX),
    {
    }

    /// Creates a generator from `seed` (forced non-zero so xorshift never
    /// sticks at zero).
    pub fn new(seed: u32) -> (r: EnemyRng)
        ensures
            r.spec_state() == seed | SEED_MIX,
            r == Self::spec_new(seed),
    {
        EnemyRng { state: seed | SEED_MIX }
    }

    /// Advances the state by one xorshift step and returns it.
    pub fn next_u32(&mut self) -> (r: u32)
        ensures
            r == xorshift(old(self).spec_state()),
            final(self).spec_state() == r,
            *final(self) == Self::spec_with_state(r),
    {
        let mut x = self.state;
        x = x ^ (x << 13u32);
        x = x ^ (x >> 17u32);
        x = x ^ (x << 5u32);
        self.state = x;
        x
    }

    /// Uniform integer in `[lo, hi)`; `lo` (without consuming a draw) when
    /// the range is empty.
    pub fn range(&mut self, lo: i32, hi: i32) -> (r: i32)
        requires
            hi - lo <= i32::MAX,
        ensures
            r == range_value(old(self).spec_state(), lo as int, hi as int),
            hi > lo ==> lo <= r < hi,
            final(self).spec_state() == (if hi <= lo {
                old(self).spec_state()
            } else {
                xorshift(old(self).spec_state())
            }),
            *final(self) == Self::spec_with_state(final(self).spec_state()),
    {
        if hi <= lo {
            return lo;
        }
        let span = (hi - lo) as u32;
        let v = self.next_u32();
        lo + (v % span) as i32
    }
}

} // verus!
