//! The library's one source of randomness.

use vstd::prelude::*;
use rand::Rng;

verus! {

/// Relies on rand's `thread_rng` and `Rng::gen_range` over the inclusive
/// range `0..=max_inclusive`: the range is never empty, so the call returns
/// (rather than panics), and the sample lies within the range. Nothing more
/// is assumed of the value.
#[verifier::external_body]
pub(crate) fn rand_upto(max_inclusive: usize) -> (r: usize)
    ensures
        r <= max_inclusive,
{
    rand::thread_rng().gen_range(0..=max_inclusive)
}

} // verus!
