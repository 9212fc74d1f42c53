//! The source of chance for the enemies' behaviour.

use vstd::prelude::*;
use rand::Rng;

verus! {

/// Draws a whole number from 0 to `max`, both included.
///
/// The number comes from `rand::Rng::gen_range` on the thread's generator,
/// called with the range `0..=max`. That range is never empty, and the
/// call returns a member of it. Which member is a matter of chance, so the
/// contract claims the range and nothing else.
#[verifier::external_body]
pub(crate) fn uniform_up_to(max: u32) -> (roll: u32)
    ensures
        roll <= max,
{
    rand::thread_rng().gen_range(0..=max)
}

/// Tosses a coin.
///
/// The toss comes from `rand::Rng::gen` on the thread's generator. Either
/// outcome is possible, so nothing is claimed of the result.
#[verifier::external_body]
pub(crate) fn coin_flip() -> (heads: bool) {
    rand::thread_rng().gen()
}

} // verus!
