//! The library's one source of randomness, kept behind a single wrapper so
//! that everything downstream of a draw is verified for every outcome.

use vstd::prelude::*;
use rand::Rng;

verus! {

/// Relies on `rand::Rng::gen_range` over `lo..hi` on `i64`, which returns a
/// value uniformly distributed in `[lo, hi)` and panics only on an empty
/// range.
#[verifier::external_body]
pub(crate) fn rand_range_i64(lo: i64, hi: i64) -> (r: i64)
    requires
        lo < hi,
    ensures
        lo <= r < hi,
{
    rand::thread_rng().gen_range(lo..hi)
}

} // verus!
