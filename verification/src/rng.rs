//! The one place the game draws randomness.

use rand::Rng;
use vstd::prelude::*;

verus! {

/// Relies on rand's `Rng::gen_range` over the half-open range `lo..hi`: it
/// returns a value of that range and panics only when the range is empty,
/// which the precondition rules out. The generator comes from
/// `rand::thread_rng`.
#[verifier::external_body]
pub(crate) fn random_in_range(lo: i64, hi: i64) -> (r: i64)
    requires
        lo < hi,
    ensures
        lo <= r < hi,
{
    rand::thread_rng().gen_range(lo..hi)
}

} // verus!
