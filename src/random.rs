use vstd::prelude::*;

verus! {

/// Relies on rand::random_range over an `i64` range `lo..hi`: it asserts that the range is
/// not empty and returns a value drawn from it, so the result lies in `lo..hi`.
#[verifier::external_body]
pub(crate) fn random_in(lo: i64, hi: i64) -> (r: i64)
    requires
        lo < hi,
    ensures
        lo <= r < hi,
{
    rand::random_range(lo..hi)
}

} // verus!
