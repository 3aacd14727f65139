//! The simulation's only source of randomness: three draws, each made by the
//! `rand` crate. Nothing is proved of them; their contracts say what every
//! outcome satisfies.

use rand::distributions::Distribution;
use rand::Rng;
use vstd::prelude::*;

verus! {

/// The sum of a sequence of weights.
pub open spec fn total_weight(weights: Seq<u32>) -> int
    decreases weights.len(),
{
    if weights.len() == 0 {
        0
    } else {
        total_weight(weights.drop_last()) + weights.last()
    }
}

/// A fair coin, drawn with `rand::random::<bool>()`. Either value may come
/// back, so nothing is claimed of the result.
#[verifier::external_body]
pub(crate) fn coin_flip() -> bool {
    rand::random::<bool>()
}

/// An integer drawn uniformly from the closed interval `low..=high` with
/// `Rng::gen_range` on the thread's generator. The draw panics on an empty
/// interval, which the precondition excludes; the result lies in the
/// interval.
#[verifier::external_body]
pub(crate) fn uniform(low: i64, high: i64) -> (drawn: i64)
    requires
        low <= high,
    ensures
        low <= drawn <= high,
{
    rand::thread_rng().gen_range(low..=high)
}

/// An index drawn with `WeightedIndex::new(..)` and `sample`, each index with
/// a chance proportional to its weight. Construction fails on an empty list
/// or when every weight is zero, and its running sum must fit the weight
/// type; the precondition excludes all three. The index is in bounds and its
/// weight is not zero.
#[verifier::external_body]
pub(crate) fn weighted_index(weights: &Vec<u32>) -> (index: usize)
    requires
        weights@.len() > 0,
        0 < total_weight(weights@) <= u32::MAX,
    ensures
        index < weights@.len(),
        weights@[index as int] > 0,
{
    let table = rand::distributions::WeightedIndex::new(weights).unwrap();
    table.sample(&mut rand::thread_rng())
}

} // verus!
