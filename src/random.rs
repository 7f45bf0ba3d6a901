//! The source of randomness for target placement.
use rand::Rng;
use vstd::prelude::*;

verus! {

/// Relies on rand's `Rng::gen_range` on the thread-local generator: for
/// `low < high` it returns an integer in `[low, high)` (it panics otherwise).
#[verifier::external_body]
pub(crate) fn uniform_in(low: i32, high: i32) -> (r: i32)
    requires
        low < high,
    ensures
        low <= r < high,
{
    rand::thread_rng().gen_range(low, high)
}

} // verus!
