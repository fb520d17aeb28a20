//! Chance: the few places where the simulation rolls dice.
//!
//! The functions here hand a draw of the thread's random number generator to
//! the simulation. Nothing is known of a draw beyond its range, so whatever
//! the simulation builds on one holds for every outcome. The generator seeds
//! itself from the system when a thread first draws, and panics if the system
//! has no entropy to give.

use vstd::prelude::*;

verus! {

/// Calls `rand::random_ratio`: a coin that shows `true` with a chance of
/// `numerator` in `denominator`. As the generator's documentation promises, a
/// chance of one is always `true` and a chance of zero always `false`. The
/// generator panics on a zero denominator and on a chance above one, which
/// the precondition excludes.
#[verifier::external_body]
pub(crate) fn coin(numerator: u32, denominator: u32) -> (heads: bool)
    requires
        denominator > 0,
        numerator <= denominator,
    ensures
        numerator == denominator ==> heads,
        numerator == 0 ==> !heads,
{
    rand::random_ratio(numerator, denominator)
}

/// Calls `rand::random` for a `bool`: a fair coin, of which nothing is known
/// in advance.
#[verifier::external_body]
pub(crate) fn fair_coin() -> (heads: bool)
{
    rand::random::<bool>()
}

/// Calls `rand::random_range` on the half-open range from `low` to `high`:
/// the draw lies in that range. The generator panics on an empty range, which
/// the precondition excludes.
#[verifier::external_body]
pub(crate) fn draw_between(low: i64, high: i64) -> (drawn: i64)
    requires
        low < high,
    ensures
        low <= drawn < high,
{
    rand::random_range(low..high)
}

} // verus!
