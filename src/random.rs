//! The seeded stream of random words that generation draws from.
use vstd::prelude::*;
use rand::rngs::StdRng;
use rand::{RngCore, SeedableRng};
use crate::fixed::UNIT_RANGE;

verus! {

#[verifier::external_type_specification]
#[verifier::external_body]
pub struct ExStdRng(StdRng);

/// The `index`-th 32-bit word, counted from zero, that a `StdRng` seeded
/// with `seed` yields.
pub uninterp spec fn seeded_word(seed: u64, index: nat) -> u32;

/// The `index`-th uniform draw of the stream seeded with `seed`: the word's
/// top 24 bits, standing for `draw / 2^24` in `[0, 1)`.
pub open spec fn seeded_draw(seed: u64, index: nat) -> u32 {
    seeded_word(seed, index) >> 8u32
}

/// A deterministic stream of random words: the words of a `StdRng` seeded
/// once, together with that seed and the number of words drawn so far.
/// The fields are private: `seed_from_u64` is the only place that sets them
/// and `next_word` the only one that advances them, so the seed and the count
/// always describe the generator's state.
pub struct RandomStream {
    rng: StdRng,
    seed: Ghost<u64>,
    drawn: Ghost<nat>,
}

/// Relies on `rand::SeedableRng::seed_from_u64` for `StdRng`: a generator
/// whose state depends on `seed` alone.
#[verifier::external_body]
fn std_rng_from_seed(seed: u64) -> StdRng {
    StdRng::seed_from_u64(seed)
}

/// Relies on `rand::RngCore::next_u32` for `StdRng`: a generator seeded once by
/// `seed_from_u64` yields, call after call, one fixed sequence of words that
/// depends on the seed alone, on every run and every machine.
#[verifier::external_body]
fn next_word(s: &mut RandomStream) -> (r: u32)
    ensures
        r == seeded_word(old(s).seed@, old(s).drawn@),
        final(s).seed@ == old(s).seed@,
        final(s).drawn@ == old(s).drawn@ + 1,
{
    s.rng.next_u32()
}

impl RandomStream {
    /// The seed that the stream started from.
    pub closed spec fn seed(&self) -> u64 {
        self.seed@
    }

    /// The number of words drawn so far.
    pub closed spec fn drawn(&self) -> nat {
        self.drawn@
    }

    /// A stream seeded with `seed`, nothing drawn yet.
    pub fn seed_from_u64(seed: u64) -> (r: Self)
        ensures
            r.seed() == seed,
            r.drawn() == 0,
    {
        RandomStream { rng: std_rng_from_seed(seed), seed: Ghost(seed), drawn: Ghost(0) }
    }

    /// The next uniform draw: the top 24 bits of the next word, as `rand`
    /// takes them for an `f32` in `[0, 1)`.
    pub fn next_draw(&mut self) -> (r: u32)
        ensures
            r == seeded_draw(old(self).seed(), old(self).drawn()),
            r < UNIT_RANGE,
            final(self).seed() == old(self).seed(),
            final(self).drawn() == old(self).drawn() + 1,
    {
        let w = next_word(self);
        let r = w >> 8u32;
        assert(w >> 8u32 < 16_777_216u32) by (bit_vector);
        r
    }
}

} // verus!
