//! The game's one source of chance.

use rand::Rng;
use vstd::prelude::*;

verus! {

/// A number in `low..high`, drawn with `rand::Rng::gen_range` from the
/// generator that `rand::thread_rng` hands to the calling thread.
///
/// Trusted, not proved: `gen_range` documents its result as at least `low`
/// and below `high`, and that it panics when `low >= high`, which the
/// precondition excludes. Two calls with the same bounds may differ, so
/// nothing more is claimed of the draw.
#[verifier::external_body]
pub(crate) fn random_in_range(low: u64, high: u64) -> (pick: u64)
    requires
        low < high,
    ensures
        low <= pick < high,
{
    rand::thread_rng().gen_range(low, high)
}

} // verus!
