use vstd::prelude::*;
use rand::Rng;
use rand::rngs::SmallRng;

verus! {

/// rand's `SmallRng` (rand 0.7), carried through unopened: the library only
/// hands it to `gen_index`.
#[verifier::external_type_specification]
#[verifier::external_body]
pub struct ExSmallRng(SmallRng);

/// Relies on rand::Rng::gen_range (rand 0.7): a uniform value in `[low, high)`;
/// it panics unless `low < high`.
#[verifier::external_body]
pub(crate) fn gen_index(rng: &mut SmallRng, n: usize) -> (r: usize)
    requires
        0 < n,
    ensures
        r < n,
{
    rng.gen_range(0, n)
}

} // verus!
