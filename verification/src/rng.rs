//! Randomness for turn selection, drawn from the process-wide generator.

use vstd::prelude::*;

verus! {

/// Relies on `rand::Rng::gen_range` over the half-open integer range
/// `0..n`: the result is uniformly distributed in `[0, n)`, and the call
/// cannot panic when the range is non-empty.
#[verifier::external_body]
pub(crate) fn random_below(n: u32) -> (r: u32)
    requires
        n > 0,
    ensures
        r < n,
{
    rand::Rng::gen_range(&mut rand::thread_rng(), 0..n)
}

} // verus!
