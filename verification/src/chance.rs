//! Random choices, drawn from a PCG generator.

use rand::seq::SliceRandom;
use rand::Rng;
use rand_pcg::Pcg64;
use vstd::prelude::*;

verus! {

/// The generator `rand_pcg::Pcg64` (`Lcg128Xsl64`), carried as an opaque
/// value.
#[verifier::external_type_specification]
#[verifier::external_body]
pub struct ExPcg64(rand_pcg::Lcg128Xsl64);

/// Calls `rand::Rng::gen::<u64>` on the generator. Any 64-bit value may come
/// back, so nothing is claimed of the result.
#[verifier::external_body]
pub(crate) fn draw_u64(rng: &mut Pcg64) -> (res: u64) {
    rng.gen()
}

/// Calls `rand::seq::SliceRandom::shuffle` on the vector. The shuffle only
/// swaps elements, so the result holds the same elements as often as the
/// argument did; nothing is claimed of their order.
#[verifier::external_body]
pub(crate) fn permute<T>(vec: Vec<T>, rng: &mut Pcg64) -> (res: Vec<T>)
    ensures
        res@.to_multiset() == vec@.to_multiset(),
{
    let mut vec = vec;
    vec.shuffle(rng);
    vec
}

} // verus!
