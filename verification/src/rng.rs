//! Randomness source: a caller-owned pseudo-random generator, backed by
//! `oorandom`. Probabilities are expressed as a numerator over
//! [`CHANCE_MAX`], so a chance of 0 never fires and a chance of
//! [`CHANCE_MAX`] always fires.

use vstd::prelude::*;

verus! {

/// Denominator of all probability values: a chance `c` fires with
/// probability `c / CHANCE_MAX`.
pub const CHANCE_MAX: u32 = 10000;

#[verifier::external_type_specification]
#[verifier::external_body]
pub struct ExRand32(oorandom::Rand32);

/// A pseudo-random number generator, owned by the caller and passed by
/// reference into every operation that draws from it.
pub struct Rng {
    inner: oorandom::Rand32,
}

impl Rng {
    /// Relies on `oorandom::Rand32::new`: builds a generator from a seed.
    #[verifier::external_body]
    pub fn new(seed: u64) -> (rng: Rng) {
        Rng { inner: oorandom::Rand32::new(seed) }
    }

    /// Relies on `oorandom::Rand32::rand_range`: returns a value within the
    /// given bounds, including the lower one and excluding the upper one.
    /// The callee requires a non-empty range.
    #[verifier::external_body]
    pub fn gen_range(&mut self, lo: u32, hi: u32) -> (r: u32)
        requires
            lo < hi,
        ensures
            lo <= r < hi,
    {
        self.inner.rand_range(lo..hi)
    }

    /// Draws a `u16` within the given bounds, lower included, upper excluded.
    pub fn gen_range_16(&mut self, lo: u16, hi: u16) -> (r: u16)
        requires
            lo < hi,
        ensures
            lo <= r < hi,
    {
        let wide: u32 = self.gen_range(lo as u32, hi as u32);
        wide as u16
    }

    /// Draws a boolean that is `true` with probability `chance / CHANCE_MAX`.
    /// A chance of 0 is never true; a chance of `CHANCE_MAX` always is.
    pub fn gen_chance(&mut self, chance: u32) -> (r: bool)
        requires
            chance <= CHANCE_MAX,
        ensures
            chance == 0 ==> !r,
            chance == CHANCE_MAX ==> r,
    {
        let draw = self.gen_range(0, CHANCE_MAX);
        draw < chance
    }
}

} // verus!
