//! The source of randomness.

use vstd::prelude::*;

verus! {

/// The thread-local generator of the `rand` crate. Nothing is known of its
/// state.
#[verifier::external_type_specification]
#[verifier::external_body]
pub struct ExThreadRng(rand::ThreadRng);

/// Draws an integer from `low` (inclusive) to `high` (exclusive).
///
/// Calls `rand::Rng::gen_range`, which panics unless `low < high` and
/// otherwise returns `low` plus a remainder modulo `high - low`. Which number
/// of the range comes back is left open.
#[verifier::external_body]
pub(crate) fn draw_between(rng: &mut rand::ThreadRng, low: i64, high: i64) -> (r: i64)
    requires
        low < high,
    ensures
        low <= r < high,
{
    rand::Rng::gen_range(rng, low, high)
}

} // verus!
