//! The crate's one source of randomness, behind a single trusted wrapper.

use vstd::prelude::*;
use rand::RngExt;

verus! {

/// Relies on `rand::RngExt::random_range` on the thread-local generator
/// `rand::rng()`: it returns a value uniform in the given range, and panics
/// only when the range is empty, which the precondition rules out.
#[verifier::external_body]
pub(crate) fn rand_u32_in(lo: u32, hi: u32) -> (n: u32)
    requires
        lo < hi,
    ensures
        lo <= n < hi,
{
    rand::rng().random_range(lo..hi)
}

} // verus!
