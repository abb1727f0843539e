use vstd::prelude::*;

use rand::Rng;

verus! {

/// Relies on `rand::thread_rng` and `rand::Rng::gen_range` over an integer
/// range: the drawn value lies in `[lo, hi)`.  `gen_range` panics only on an
/// empty range, which the precondition rules out.  Nothing more is assumed
/// of the draw: every caller's contract holds for every value in the range.
#[verifier::external_body]
pub(crate) fn random_in_range(lo: u64, hi: u64) -> (r: u64)
    requires
        lo < hi,
    ensures
        lo <= r < hi,
{
    rand::thread_rng().gen_range(lo..hi)
}

} // verus!
