use vstd::prelude::*;

use rand::distributions::Distribution;
use rand::Rng;

verus! {

/// Sum of a weight vector.
pub open spec fn total_weight(w: Seq<u32>) -> int
    decreases w.len(),
{
    if w.len() == 0 {
        0
    } else {
        total_weight(w.drop_last()) + w.last()
    }
}

/// Relies on `rand::thread_rng` and `Rng::gen_range`: a draw from `0..n`, which panics
/// on an empty range.
#[verifier::external_body]
pub(crate) fn random_below(n: usize) -> (r: usize)
    requires
        n > 0,
    ensures
        r < n,
{
    rand::thread_rng().gen_range(0..n)
}

/// Relies on `rand::distributions::WeightedIndex`: `new` fails only on an empty list or a
/// zero total (integer weights are never negative), and `sample` never draws an index whose
/// weight is zero. The total must fit in the weight type.
#[verifier::external_body]
pub(crate) fn random_weighted(weights: &Vec<u32>) -> (r: Option<usize>)
    requires
        total_weight(weights@) <= u32::MAX,
    ensures
        weights@.len() > 0 && total_weight(weights@) > 0 ==> r is Some,
        r matches Some(i) ==> i < weights@.len() && weights@[i as int] > 0,
{
    match rand::distributions::WeightedIndex::<u32>::new(weights.iter()) {
        Ok(dist) => Some(dist.sample(&mut rand::thread_rng())),
        Err(_) => None,
    }
}

/// An index of `weights` drawn with probability proportional to its weight.
pub fn pick_weighted(weights: &Vec<u32>) -> (r: usize)
    requires
        weights@.len() > 0,
        0 < total_weight(weights@) <= u32::MAX,
    ensures
        r < weights@.len(),
        weights@[r as int] > 0,
{
    match random_weighted(weights) {
        Some(i) => i,
        None => {
            assert(false);
            0
        },
    }
}

} // verus!
