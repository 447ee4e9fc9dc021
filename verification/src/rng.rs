//! The deterministic pseudo-random source that drives generation.
//!
//! The generator keeps one 64-bit word of state; every draw advances the
//! state by a fixed odd constant and mixes the new state into the output
//! word. The same seed and the same call sequence always give the same
//! outputs; there is no other source of randomness in the crate.

use vstd::prelude::*;

verus! {

/// The fixed state increment of the generator.
pub const STEP: u64 = 0x9E3779B97F4A7C15;

/// The first multiplier of the output mix.
pub const MIX_A: u64 = 0xBF58476D1CE4E5B9;

/// The second multiplier of the output mix.
pub const MIX_B: u64 = 0x94D049BB133111EB;

/// The state reached from `s` by one draw.
pub open spec fn next_state(s: u64) -> u64 {
    s.wrapping_add(STEP)
}

/// The output mix: scrambles one state word into one output word.
#[verifier::opaque]
pub open spec fn spec_mix(z: u64) -> u64 {
    let a = (z ^ (z >> 30)).wrapping_mul(MIX_A);
    let b = (a ^ (a >> 27)).wrapping_mul(MIX_B);
    b ^ (b >> 31)
}

/// The word that a draw from state `s` returns.
pub open spec fn output_of(s: u64) -> u64 {
    spec_mix(next_state(s))
}

/// The state reached from `s` by `n` draws.
pub open spec fn state_after(s: u64, n: nat) -> u64
    decreases n,
{
    if n == 0 {
        s
    } else {
        next_state(state_after(s, (n - 1) as nat))
    }
}

/// Drawing `a + b` times is drawing `a` times, then `b` times.
pub proof fn lemma_state_after_add(s: u64, a: nat, b: nat)
    ensures
        state_after(s, a + b) == state_after(state_after(s, a), b),
    decreases b,
{
    if b > 0 {
        lemma_state_after_add(s, a, (b - 1) as nat);
    }
}

/// The value drawn from state `s` and reduced to the half-open range
/// `[lo, hi)`.
pub open spec fn uniform_of(s: u64, lo: i64, hi: i64) -> i64 {
    (lo + output_of(s) % ((hi - lo) as u64)) as i64
}

/// The output mix: scrambles one word into another, bijectively.
pub fn mix(z: u64) -> (r: u64)
    ensures
        r == spec_mix(z),
{
    reveal(spec_mix);
    let a = (z ^ (z >> 30)).wrapping_mul(MIX_A);
    let b = (a ^ (a >> 27)).wrapping_mul(MIX_B);
    b ^ (b >> 31)
}

/// A value drawn uniform over `[lo, hi)` lies in `[lo, hi)`.
pub proof fn lemma_uniform_of_range(s: u64, lo: i64, hi: i64)
    requires
        lo < hi,
        hi - lo <= 0x1_0000_0000,
    ensures
        lo <= uniform_of(s, lo, hi) < hi,
{
}

/// A deterministic pseudo-random source: one 64-bit state word.
pub struct SeededRandomSource {
    /// The current state word.
    pub state: u64,
}

impl SeededRandomSource {
    /// Starts a source at the given seed.
    pub fn new(seed: u64) -> (r: SeededRandomSource)
        ensures
            r.state == seed,
    {
        SeededRandomSource { state: seed }
    }

    /// Draws one full 64-bit word.
    pub fn next_u64(&mut self) -> (r: u64)
        ensures
            final(self).state == next_state(old(self).state),
            r == output_of(old(self).state),
    {
        let s = self.state.wrapping_add(STEP);
        self.state = s;
        mix(s)
    }

    /// Draws an integer uniform over the half-open range `[lo, hi)`.
    ///
    /// A malformed range (`lo >= hi`) is a programming error, not a
    /// recoverable failure: it is excluded by precondition.
    pub fn uniform_int(&mut self, lo: i64, hi: i64) -> (r: i64)
        requires
            lo < hi,
            hi - lo <= 0x1_0000_0000,
        ensures
            final(self).state == next_state(old(self).state),
            r == uniform_of(old(self).state, lo, hi),
            lo <= r < hi,
    {
        let word = self.next_u64();
        let span = (hi - lo) as u64;
        let off = word % span;
        lo + (off as i64)
    }

    /// Draws a boolean that is true with probability `num / den`.
    pub fn random_bool(&mut self, num: u64, den: u64) -> (r: bool)
        requires
            den > 0,
        ensures
            final(self).state == next_state(old(self).state),
            r == (output_of(old(self).state) % den < num),
    {
        let word = self.next_u64();
        word % den < num
    }
}

} // verus!
