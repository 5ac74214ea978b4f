//! The source of random numbers.

use vstd::prelude::*;
use rand::Rng;

verus! {

/// `Rng::gen_range` on the generator that `rand::thread_rng` hands out: a
/// number drawn from `low` up to, but not including, `high`. Which number
/// comes back is left open. The method panics on an empty range, so `low`
/// must lie below `high`.
#[verifier::external_body]
pub(crate) fn random_in_range(low: u32, high: u32) -> (n: u32)
    requires
        low < high,
    ensures
        low <= n < high,
{
    rand::thread_rng().gen_range(low, high)
}

} // verus!
