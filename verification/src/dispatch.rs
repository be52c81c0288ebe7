//! Weighted choice: picking one of several alternatives with a probability
//! in proportion to its weight.

use vstd::prelude::*;
use rand::rngs::StdRng;
use crate::entropy::{draw_below, draw_index};

verus! {

/// The sum of the weights.
pub open spec fn total(weights: Seq<u128>) -> int
    decreases weights.len(),
{
    if weights.len() == 0 {
        0
    } else {
        total(weights.drop_last()) + weights.last()
    }
}

/// Laying the weights end to end from zero, the alternative `index` owns the
/// interval from the sum of the weights before it up to, and not including,
/// that sum plus its own weight. This says that `draw` lies in the interval
/// of `index`.
pub open spec fn chosen(weights: Seq<u128>, draw: int, index: int) -> bool {
    &&& 0 <= index < weights.len()
    &&& total(weights.take(index)) <= draw < total(weights.take(index + 1))
}

/// A weight put at the end adds its amount to the sum.
pub proof fn lemma_total_push(weights: Seq<u128>, weight: u128)
    ensures
        total(weights.push(weight)) == total(weights) + weight,
{
    assert(weights.push(weight).drop_last() =~= weights);
}

/// One more weight adds its amount to the sum.
pub proof fn lemma_total_step(weights: Seq<u128>, index: int)
    requires
        0 <= index < weights.len(),
    ensures
        total(weights.take(index + 1)) == total(weights.take(index)) + weights[index],
{
    assert(weights.take(index + 1).drop_last() =~= weights.take(index));
}

/// The sums of the weights before each position do not decrease, and none
/// exceeds the sum of all.
pub proof fn lemma_total_monotone(weights: Seq<u128>, i: int, j: int)
    requires
        0 <= i <= j <= weights.len(),
    ensures
        0 <= total(weights.take(i)) <= total(weights.take(j)) <= total(weights),
    decreases weights.len() - i, weights.len() - j,
{
    assert(weights.take(weights.len() as int) =~= weights);
    if i < j {
        lemma_total_step(weights, i);
        lemma_total_monotone(weights, i + 1, j);
        lemma_nonnegative(weights.take(i));
    } else if j < weights.len() {
        lemma_total_step(weights, j);
        lemma_total_monotone(weights, i, j + 1);
        lemma_total_monotone(weights, j + 1, weights.len() as int);
    } else {
        lemma_nonnegative(weights);
    }
}

/// A sum of weights is not negative.
proof fn lemma_nonnegative(weights: Seq<u128>)
    ensures
        total(weights) >= 0,
    decreases weights.len(),
{
    if weights.len() > 0 {
        lemma_nonnegative(weights.drop_last());
    }
}

/// A draw lies in the interval of at most one alternative, and that
/// alternative has a weight above zero.
pub proof fn lemma_chosen_unique(weights: Seq<u128>, draw: int, i: int, j: int)
    requires
        chosen(weights, draw, i),
        chosen(weights, draw, j),
    ensures
        i == j,
        weights[i] > 0,
{
    lemma_total_step(weights, i);
    if i < j {
        lemma_total_monotone(weights, i + 1, j);
    } else if j < i {
        lemma_total_monotone(weights, j + 1, i);
    }
}

/// Adds the weights up.
pub fn sum_weights(weights: &Vec<u128>) -> (res: u128)
    requires
        total(weights@) <= u128::MAX,
    ensures
        res == total(weights@),
{
    let mut sum: u128 = 0;
    let mut i: usize = 0;
    assert(weights@.take(0) =~= Seq::<u128>::empty());
    while i < weights.len()
        invariant
            i <= weights.len(),
            total(weights@) <= u128::MAX,
            sum == total(weights@.take(i as int)),
        decreases weights.len() - i,
    {
        proof {
            lemma_total_step(weights@, i as int);
            lemma_total_monotone(weights@, i + 1, weights.len() as int);
        }
        sum = sum + weights[i];
        i += 1;
    }
    assert(weights@.take(weights.len() as int) =~= weights@);
    sum
}

/// Finds the alternative in whose interval the draw lies, walking the
/// weights from the first.
pub fn pick_weighted(weights: &Vec<u128>, draw: u128) -> (res: usize)
    requires
        draw < total(weights@),
    ensures
        chosen(weights@, draw as int, res as int),
{
    let mut left: u128 = draw;
    let mut i: usize = 0;
    assert(weights@.take(0) =~= Seq::<u128>::empty());
    while i < weights.len()
        invariant
            i <= weights.len(),
            draw < total(weights@),
            left == draw - total(weights@.take(i as int)),
        decreases weights.len() - i,
    {
        proof {
            lemma_total_step(weights@, i as int);
        }
        if left < weights[i] {
            return i;
        }
        left = left - weights[i];
        i += 1;
    }
    proof {
        assert(weights@.take(weights.len() as int) =~= weights@);
        assert(false);
    }
    0
}

/// Chooses one of the alternatives at random, each with a probability in
/// proportion to its weight. Where every weight is zero, it chooses among all
/// of them evenly.
pub fn choose_weighted(rng: &mut StdRng, weights: &Vec<u128>) -> (res: usize)
    requires
        weights.len() > 0,
        total(weights@) <= u128::MAX,
    ensures
        res < weights.len(),
        total(weights@) > 0 ==> weights[res as int] > 0,
{
    let sum = sum_weights(weights);
    if sum == 0 {
        draw_index(rng, weights.len())
    } else {
        let draw = draw_below(rng, sum);
        let index = pick_weighted(weights, draw);
        proof {
            lemma_chosen_unique(weights@, draw as int, index as int, index as int);
        }
        index
    }
}

} // verus!
