//! The per-worker randomness stream: rand's standard generator behind the
//! narrow set of operations the workload generator draws from it.

use rand::Rng;
use rand::RngCore;
use rand::SeedableRng;
use vstd::prelude::*;

verus! {

/// rand's standard pseudo-random generator. Opaque to the proofs: nothing is
/// assumed about the values a stream produces beyond what each operation
/// below states of every outcome.
#[verifier::external_type_specification]
#[verifier::external_body]
pub struct ExStdRng(rand::rngs::StdRng);

/// Relies on rand's `SeedableRng::seed_from_u64`: builds a generator from a
/// 64-bit seed. Nothing is assumed about the stream it produces.
#[verifier::external_body]
pub(crate) fn std_rng_from_seed(seed: u64) -> (r: rand::rngs::StdRng) {
    rand::rngs::StdRng::seed_from_u64(seed)
}

/// Relies on rand's `Rng::gen_range` on the range `0..bound`: the draw lies
/// strictly below the bound, and the range is non-empty, so the call does not
/// panic.
#[verifier::external_body]
pub(crate) fn rng_below(rng: &mut rand::rngs::StdRng, bound: u64) -> (r: u64)
    requires
        bound >= 1,
    ensures
        r < bound,
{
    rng.gen_range(0..bound)
}

/// Relies on rand's `RngCore::next_u64`: some 64-bit value; nothing is
/// assumed of it.
#[verifier::external_body]
pub(crate) fn rng_next_u64(rng: &mut rand::rngs::StdRng) -> (r: u64) {
    rng.next_u64()
}

} // verus!
