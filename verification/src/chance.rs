//! The one source of chance in the game.

use vstd::prelude::*;
use rand::Rng;

verus! {

/// Draws a whole number from `low..=high` by `rand::Rng::gen_range` on the
/// generator that `rand::thread_rng` hands out.
///
/// Trusted, not proved: the number drawn lies in the range asked for. Which
/// number it is differs from call to call, so nothing more is said of it.
/// `gen_range` panics on an empty range, which the precondition rules out.
/// `thread_rng` seeds its generator from the operating system on first use
/// and panics on a machine that cannot provide a seed; no precondition can
/// speak of that.
#[verifier::external_body]
pub(crate) fn random_between(low: i32, high: i32) -> (drawn: i32)
    requires
        low <= high,
    ensures
        low <= drawn <= high,
{
    rand::thread_rng().gen_range(low..=high)
}

} // verus!
