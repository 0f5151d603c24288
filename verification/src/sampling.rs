//! The one source of chance in the game.

use rand::Rng;
use vstd::prelude::*;

verus! {

/// Draws a number from `lo..=hi` by `rand::Rng::random_range` on the
/// generator that `rand::rng` hands out.
///
/// Not verified: the contract records that `random_range` returns a value of
/// the range it is given, and that it must not be given an empty range, on
/// which it panics. Which value comes back is left open; two calls with the
/// same bounds may differ.
#[verifier::external_body]
pub(crate) fn random_in_range(lo: i32, hi: i32) -> (n: i32)
    requires
        lo <= hi,
    ensures
        lo <= n <= hi,
{
    rand::rng().random_range(lo..=hi)
}

} // verus!
