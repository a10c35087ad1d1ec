//! A small deterministic pseudo-random source.
//!
//! Environments draw their randomized starting configurations from an
//! explicit, caller-supplied `Prng` rather than from hidden global
//! state, so a fixed seed yields a fully reproducible run and every
//! contract that mentions a draw can pin its exact value.
use vstd::prelude::*;

verus! {

/// The state a fresh generator falls back to when seeded with zero,
/// which would otherwise be a fixed point of the shift sequence.
pub const DEFAULT_SEED: u64 = 0x9E37_79B9_7F4A_7C15;

/// Xorshift generator state.  The state is public so that contracts
/// can speak about the exact stream a seed produces.
pub struct Prng {
    pub state: u64,
}

/// One xorshift step of the 13/7/17 variant.
pub open spec fn xorshift_spec(s: u64) -> u64 {
    let a = s ^ (s << 13);
    let b = a ^ (a >> 7);
    b ^ (b << 17)
}

/// The value `range` draws from state `s` for the interval `[lo, hi)`.
pub open spec fn range_spec(s: u64, lo: int, hi: int) -> int {
    lo + (xorshift_spec(s) % ((hi - lo) as u64)) as int
}

impl Prng {
    /// Build a generator from a seed; a zero seed is replaced by a
    /// fixed nonzero default.
    pub fn new(seed: u64) -> (r: Prng)
        ensures
            r.state == if seed == 0 {
                DEFAULT_SEED
            } else {
                seed
            },
    {
        if seed == 0 {
            Prng { state: DEFAULT_SEED }
        } else {
            Prng { state: seed }
        }
    }

    /// Advance the state once and hand the new state out.
    pub fn next_raw(&mut self) -> (r: u64)
        ensures
            final(self).state == xorshift_spec(old(self).state),
            r == final(self).state,
    {
        let s = self.state;
        let a = s ^ (s << 13);
        let b = a ^ (a >> 7);
        let c = b ^ (b << 17);
        self.state = c;
        c
    }

    /// Draw a value in `[lo, hi)`, advancing the state once.
    pub fn range(&mut self, lo: i64, hi: i64) -> (r: i64)
        requires
            lo < hi,
            -1_000_000_000 <= lo,
            hi <= 1_000_000_000,
            hi - lo <= 1_000_000,
        ensures
            final(self).state == xorshift_spec(old(self).state),
            r == range_spec(old(self).state, lo as int, hi as int),
            lo <= r < hi,
    {
        let x = self.next_raw();
        let span = (hi - lo) as u64;
        let m = x % span;
        lo + (m as i64)
    }
}

} // verus!
