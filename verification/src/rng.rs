//! Seeded random numbers for the scattered formation pattern.
//!
//! The generator and its sampling come from the `rand` crate; the
//! contracts state only what holds of every outcome (the sample's range),
//! so everything downstream is verified for every value the generator can
//! return.

use vstd::prelude::*;

use rand::rngs::SmallRng;
use rand::Rng;
use rand::SeedableRng;

verus! {

#[verifier::external_type_specification]
#[verifier::external_body]
pub struct ExSmallRng(SmallRng);

/// Relies on rand's `SeedableRng::seed_from_u64` for `SmallRng`: builds a
/// generator from the seed without failing.
#[verifier::external_body]
pub(crate) fn rng_from_seed(seed: u64) -> SmallRng {
    SmallRng::seed_from_u64(seed)
}

/// Relies on rand's `Rng::gen_range` on a half-open `i64` range: for a
/// non-empty range the sample lies in `[lo, hi)`.
#[verifier::external_body]
pub(crate) fn rng_below(rng: &mut SmallRng, lo: i64, hi: i64) -> (r: i64)
    requires
        lo < hi,
    ensures
        lo <= r < hi,
{
    rng.gen_range(lo..hi)
}

} // verus!
