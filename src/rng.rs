use rand::rngs::StdRng;
use rand::{Rng, SeedableRng};
use vstd::prelude::*;

verus! {

/// The constant that every actor's stream is seeded from.
pub const RANDOM_SEED: u64 = 0x0EA4_F7EE_CAFE_F00D;

#[verifier::external_type_specification]
#[verifier::external_body]
pub struct ExStdRng(StdRng);

/// The byte that a stream seeded with `seed` yields after `n` earlier draws.
pub uninterp spec fn stream_byte(seed: u64, n: nat) -> u8;

/// A deterministic, seeded pseudo-random stream.
pub struct Random {
    rng: StdRng,
    seed: u64,
    draws: Ghost<nat>,
}

/// Relies on rand's `SeedableRng::seed_from_u64` for `StdRng`: a generator
/// started from `seed`, with nothing drawn yet.
#[verifier::external_body]
fn seeded(seed: u64) -> (r: Random)
    ensures
        r.seed == seed,
        r.draws@ == 0,
{
    Random { rng: StdRng::seed_from_u64(seed), seed, draws: Ghost(0) }
}

/// Relies on rand's `Rng::gen::<u8>` on `StdRng`, which is deterministic:
/// the next byte depends on the seed and on how many were drawn before.
#[verifier::external_body]
fn next_byte(r: &mut Random) -> (b: u8)
    ensures
        b == stream_byte(old(r).seed, old(r).draws@),
        final(r).seed == old(r).seed,
        final(r).draws@ == old(r).draws@ + 1,
{
    r.rng.gen::<u8>()
}

impl Random {
    /// The seed that this stream was started from.
    pub closed spec fn seed_spec(&self) -> u64 {
        self.seed
    }

    /// How many bytes have been drawn from this stream.
    pub closed spec fn draws_spec(&self) -> nat {
        self.draws@
    }

    /// A stream started from `seed`.
    pub fn from_seed(seed: u64) -> (r: Random)
        ensures
            r.seed_spec() == seed,
            r.draws_spec() == 0,
    {
        seeded(seed)
    }

    /// The seed that this stream was started from.
    pub fn seed(&self) -> (r: u64)
        ensures
            r == self.seed_spec(),
    {
        self.seed
    }

    /// Draws the next byte of the stream.
    pub fn gen(&mut self) -> (r: u8)
        ensures
            r == stream_byte(old(self).seed_spec(), old(self).draws_spec()),
            final(self).seed_spec() == old(self).seed_spec(),
            final(self).draws_spec() == old(self).draws_spec() + 1,
    {
        next_byte(self)
    }
}

impl Default for Random {
    /// A stream started from the fixed constant.
    fn default() -> (r: Random)
        ensures
            r.seed_spec() == RANDOM_SEED,
            r.draws_spec() == 0,
    {
        Random::from_seed(RANDOM_SEED)
    }
}

} // verus!
