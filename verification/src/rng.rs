//! The one source of randomness: a uniformly drawn position coordinate for
//! timer-spawned sprites.

use vstd::prelude::*;
use rand::Rng;

verus! {

/// Relies on rand's `Rng::gen_range` over `lo..hi` (via `thread_rng`): it
/// panics only on an empty range, and otherwise returns a value of the
/// half-open range. Which value comes back depends on the thread's
/// generator, so nothing more is stated of it.
#[verifier::external_body]
pub(crate) fn random_in_range(lo: i64, hi: i64) -> (r: i64)
    requires
        lo < hi,
    ensures
        lo <= r < hi,
{
    rand::thread_rng().gen_range(lo..hi)
}

} // verus!
