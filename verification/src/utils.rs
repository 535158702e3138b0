use vstd::prelude::*;

use rand::Rng;

verus! {

/// Relies on `rand::Rng::gen_range` over the half-open range `min..max`:
/// the sampled value lies inside the range. The call panics on an empty
/// range, so an empty one is refused here.
#[verifier::external_body]
pub fn generate_random_int(min: u16, max: u16) -> (r: u16)
    requires
        min < max,
    ensures
        min <= r < max,
{
    let mut rng = rand::thread_rng();
    rng.gen_range(min..max)
}

} // verus!
