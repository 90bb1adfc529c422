//! The random source that the spawner draws from.

use vstd::prelude::*;
use rand::rngs::StdRng;
use rand::Rng;
use rand::SeedableRng;

verus! {

#[verifier::external_type_specification]
#[verifier::external_body]
pub struct ExStdRng(StdRng);

/// An explicitly owned random generator. Whoever spawns particles is handed
/// one; there is no generator shared behind the caller's back.
pub struct RandomSource {
    rng: StdRng,
}

/// The generator that `StdRng::seed_from_u64` of `rand` makes of `seed`.
pub uninterp spec fn seeded_from(seed: u64) -> StdRng;

/// Calls `StdRng::seed_from_u64` of `rand`. Claimed: the generator that comes
/// back is fixed by the seed alone. The call spreads the seed over the
/// generator's key by fixed arithmetic and reads nothing else. What stream the
/// generator then gives is not claimed.
#[verifier::external_body]
fn seeded_generator(seed: u64) -> (rng: StdRng)
    ensures
        rng == seeded_from(seed),
{
    StdRng::seed_from_u64(seed)
}

/// Calls `Rng::gen_range` of `rand` on the inclusive range `lo..=hi`. The call
/// panics on an empty range, which `requires` leaves out. Claimed: the value
/// drawn lies in the range, both ends included. Which value it is depends on
/// the generator's state and is not claimed.
#[verifier::external_body]
fn sample_inclusive(rng: &mut StdRng, lo: i64, hi: i64) -> (r: i64)
    requires
        lo <= hi,
    ensures
        lo <= r <= hi,
{
    rng.gen_range(lo..=hi)
}

impl RandomSource {
    /// The generator that the source draws from, in the state it is in.
    pub closed spec fn generator(&self) -> StdRng {
        self.rng
    }

    /// A source whose stream is fixed by `seed`: it draws from the generator
    /// that the seed alone determines, so two sources of one seed start out
    /// alike.
    pub fn from_seed(seed: u64) -> (source: RandomSource)
        ensures
            source.generator() == seeded_from(seed),
    {
        RandomSource { rng: seeded_generator(seed) }
    }

    /// A source that continues the stream of `rng`: it draws from that very
    /// generator, in the state it was handed over in.
    pub fn from_generator(rng: StdRng) -> (source: RandomSource)
        ensures
            source.generator() == rng,
    {
        RandomSource { rng }
    }

    /// Draws an integer between `lo` and `hi`, both included. There is nothing
    /// to draw, and nothing is drawn, when `lo` is above `hi`.
    pub fn draw(&mut self, lo: i64, hi: i64) -> (drawn: Option<i64>)
        ensures
            drawn is Some <==> lo <= hi,
            drawn matches Some(r) ==> lo <= r <= hi,
    {
        if lo <= hi {
            Some(sample_inclusive(&mut self.rng, lo, hi))
        } else {
            None
        }
    }
}

} // verus!
