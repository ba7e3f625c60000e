use vstd::prelude::*;

use rand_pcg::Mcg128Xsl64;

verus! {

/// The value that a `Mcg128Xsl64` generator (`Pcg64Mcg`) seeded by
/// `SeedableRng::seed_from_u64(seed)` returns from `next_u64` after `k` earlier calls of
/// `next_u64`. The generator's output for a given seed is stable across versions of `rand_pcg`.
pub uninterp spec fn pcg_output(seed: u64, k: u128) -> u64;

/// `SeedableRng::seed_from_u64`, then `Mcg128Xsl64::advance(k)`, then `RngCore::next_u64`: the
/// value the generator seeded with `seed` returns after `k` earlier draws (`advance(k)` is
/// documented to be equivalent to `k` calls of `next_u64`).
#[verifier::external_body]
fn pcg_output_at(seed: u64, k: u128) -> (r: u64)
    ensures
        r == pcg_output(seed, k),
{
    let mut rng = <Mcg128Xsl64 as rand::SeedableRng>::seed_from_u64(seed);
    rng.advance(k);
    rand::RngCore::next_u64(&mut rng)
}

/// The count of values drawn after `n`, wrapping around at `u128::MAX`.
pub open spec fn next_draw(n: u128) -> u128 {
    if n == u128::MAX {
        0
    } else {
        (n + 1) as u128
    }
}

/// A seedable source of random values, used by schedulers to answer requests for random data.
/// Its state is the seed of its `Pcg64Mcg` stream and the number of values drawn from that
/// stream since it was seeded; the next value is the stream's value at that position.
#[derive(Debug, Clone, Copy, PartialEq, Eq, Structural)]
pub(crate) struct RandomDataSource {
    seed: u64,
    draws: u128,
}

impl RandomDataSource {
    /// The seed of the stream.
    pub(crate) closed spec fn seed(&self) -> u64 {
        self.seed
    }

    /// How many values were drawn from the stream since it was seeded (wrapping).
    pub(crate) closed spec fn draws(&self) -> u128 {
        self.draws
    }

    /// A data source seeded with `seed`.
    pub(crate) fn initialize(seed: u64) -> (r: Self)
        ensures
            r.seed() == seed,
            r.draws() == 0,
    {
        RandomDataSource { seed, draws: 0 }
    }

    /// Reseed the data source with a fresh seed drawn from it, and return that seed.
    pub(crate) fn reinitialize(&mut self) -> (new_seed: u64)
        ensures
            new_seed == pcg_output(old(self).seed(), old(self).draws()),
            final(self).seed() == new_seed,
            final(self).draws() == 0,
    {
        let new_seed = pcg_output_at(self.seed, self.draws);
        self.seed = new_seed;
        self.draws = 0;
        new_seed
    }

    /// The next random value of the stream.
    pub(crate) fn next_u64(&mut self) -> (r: u64)
        ensures
            r == pcg_output(old(self).seed(), old(self).draws()),
            final(self).seed() == old(self).seed(),
            final(self).draws() == next_draw(old(self).draws()),
    {
        let r = pcg_output_at(self.seed, self.draws);
        self.draws = self.draws.wrapping_add(1);
        r
    }
}

} // verus!
