//! The library's one source of randomness.

use rand::Rng;
use vstd::prelude::*;

verus! {

/// Draws an integer between `low` and `high`, both included.
///
/// Trusted: the body calls `rand::Rng::gen_range` on the generator that
/// `rand::thread_rng` hands out, with the inclusive range `low..=high`. The
/// contract claims only that the draw lies in that range, which is what the
/// method documents; an empty range, on which the method panics, is left out.
/// Two draws on the same bounds may differ. `thread_rng` panics where the
/// operating system hands out no seed; no argument decides that, so no
/// `requires` can leave it out.
#[verifier::external_body]
pub(crate) fn random_in_range(low: i32, high: i32) -> (drawn: i32)
    requires
        low <= high,
    ensures
        low <= drawn <= high,
{
    rand::thread_rng().gen_range(low..=high)
}

} // verus!
