//! Random draws.
use vstd::prelude::*;

verus! {

/// Relies on `rand::Rng::random_range` over `lo..=hi`: a number in that range,
/// which it panics on unless `lo <= hi`.
#[verifier::external_body]
pub(crate) fn random_between(lo: usize, hi: usize) -> (r: usize)
    requires
        lo <= hi,
    ensures
        lo <= r <= hi,
{
    rand::Rng::random_range(&mut rand::rng(), lo..=hi)
}

} // verus!
