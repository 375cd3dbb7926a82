//! Draws from the thread-local uniform random source.
use vstd::prelude::*;

verus! {

/// Relies on rand::random_range over `lo..hi`: a uniform draw within the
/// half-open range. It panics only on an empty range, which `requires`
/// rules out.
#[verifier::external_body]
pub(crate) fn draw_below(lo: u64, hi: u64) -> (r: u64)
    requires
        lo < hi,
    ensures
        lo <= r < hi,
{
    rand::random_range(lo..hi)
}

/// Relies on rand::random_range over `lo..=hi`: a uniform draw within the
/// closed range. It panics only on an empty range, which `requires`
/// rules out.
#[verifier::external_body]
pub(crate) fn draw_between(lo: u64, hi: u64) -> (r: u64)
    requires
        lo <= hi,
    ensures
        lo <= r <= hi,
{
    rand::random_range(lo..=hi)
}

} // verus!
