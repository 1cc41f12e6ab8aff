use rand::Rng;
use vstd::prelude::*;

verus! {

/// Relies on rand's `thread_rng().gen_range(low, high)`: a value drawn from
/// `low..high`, high excluded; it panics when `low >= high`.
#[verifier::external_body]
pub(crate) fn random_in(low: i16, high: i16) -> (r: i16)
    requires
        low < high,
    ensures
        low <= r < high,
{
    rand::thread_rng().gen_range(low, high)
}

} // verus!
