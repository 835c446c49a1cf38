//! The seeded random source that the simulator owns, from rand's `StdRng`.

use rand::rngs::StdRng;
use rand::{Rng, RngCore, SeedableRng};
use vstd::prelude::*;

verus! {

#[verifier::external_type_specification]
#[verifier::external_body]
pub struct ExStdRng(StdRng);

/// Relies on rand's `SeedableRng::seed_from_u64` for `StdRng`: a generator
/// whose stream is fixed by the seed.
#[verifier::external_body]
pub(crate) fn seeded(seed: u64) -> (r: StdRng) {
    StdRng::seed_from_u64(seed)
}

/// Relies on rand's `Rng::gen_range` over `0..n`: a value in `[0, n)`; it
/// panics on an empty range, which `n > 0` rules out.
#[verifier::external_body]
pub(crate) fn uniform_below(rng: &mut StdRng, n: usize) -> (r: usize)
    requires
        n > 0,
    ensures
        r < n,
{
    rng.gen_range(0..n)
}

/// Relies on rand's `RngCore::next_u32`: the next 32 random bits.
#[verifier::external_body]
pub(crate) fn uniform_word(rng: &mut StdRng) -> (r: u32) {
    rng.next_u32()
}

/// Relies on rand's `Rng::gen::<bool>`: a fair coin.
#[verifier::external_body]
pub(crate) fn fair_coin(rng: &mut StdRng) -> (r: bool) {
    rng.gen::<bool>()
}

} // verus!
