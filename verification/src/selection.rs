//! Fitness-proportionate (roulette-wheel) selection: picks one index out of a
//! sequence of fitness weights, with probability proportional to the weight.
//! Selection fails, with an explicit error, on an empty sequence and whenever
//! weighted sampling cannot proceed; it never falls back silently.

use vstd::prelude::*;
use crate::bits;

verus! {

#[derive(Clone, Copy, Debug, PartialEq, Eq)]
pub enum SelectError {
    /// There was nothing to select from.
    EmptyPopulation,
    /// Some fitness pattern is not a weight: a negative value or a NaN.
    InvalidFitness,
    /// Every fitness is zero, so no draw can be biased by them.
    ZeroTotalFitness,
    /// The fitnesses are weights and not all zero, but their running sum is
    /// not a positive finite value (it reached infinity), so the sampler
    /// cannot be built over them.
    NonFiniteTotalFitness,
}

/// Every pattern of the sequence is a weight: the value it stands for is not
/// negative and not a NaN.
pub open spec fn all_weights(ws: Seq<u32>) -> bool {
    forall|i: int| 0 <= i < ws.len() ==> bits::is_weight(#[trigger] ws[i])
}

/// Running single-precision sum of a non-empty sequence of weight patterns,
/// added left to right starting from the first element, exactly as the
/// sampler accumulates them.
pub open spec fn running_total(ws: Seq<u32>) -> u32
    recommends
        ws.len() > 0,
    decreases ws.len(),
{
    if ws.len() <= 1 {
        ws[0]
    } else {
        bits::add_bits(running_total(ws.drop_last()), ws.last())
    }
}

/// The step a fold of the running total takes from one prefix to the next.
proof fn lemma_running_total_step(ws: Seq<u32>, i: int)
    requires
        1 <= i < ws.len(),
    ensures
        running_total(ws.take(i + 1)) == bits::add_bits(running_total(ws.take(i)), ws[i]),
    decreases i,
{
    assert(ws.take(i + 1).drop_last() =~= ws.take(i));
}

/// Relies on `choose_weighted` of rand's `SliceRandom`, applied to the pairs
/// of each index and the value of its weight pattern: returns one of the
/// indices, the probability of each proportional to its weight, drawing once
/// from the random source. Under the preconditions the weights are
/// non-negative with a positive finite sum, so rand's weighted sampler is
/// built without error or panic, and the index it picks is one whose weight
/// made the cumulative sum grow, never one of a zero weight. The loop and
/// `copysignf` of libm with `cast` of bytemuck only turn each pattern into
/// an indexed value.
#[verifier::external_body]
fn weighted_draw(rng: &mut rand_chacha::ChaCha8Rng, weights: &Vec<u32>) -> (r: usize)
    requires
        weights@.len() > 0,
        all_weights(weights@),
        bits::is_positive_finite(running_total(weights@)),
    ensures
        r < weights@.len(),
        !bits::is_zero(weights@[r as int]),
{
    let mut pairs = Vec::new();
    for (i, &w) in weights.iter().enumerate() {
        pairs.push((i, libm::copysignf(bytemuck::cast(w), bytemuck::cast(w))));
    }
    let chosen = rand::seq::SliceRandom::choose_weighted(pairs.as_slice(), rng, |p| p.1);
    chosen.unwrap().0
}

pub trait SelectionMethod: Sized {
    /// The weights admit a selection; what that takes is the implementor's
    /// business.
    spec fn can_select(&self, ws: Seq<u32>) -> bool;

    /// Picks the index of one member given every member's fitness pattern,
    /// consuming random source state, or reports why no pick is possible.
    /// The chosen member is never removed: the same index may be returned
    /// again by the next call.
    fn select(&self, rng: &mut rand_chacha::ChaCha8Rng, weights: &Vec<u32>) -> (r: Result<
        usize,
        SelectError,
    >)
        ensures
            (r is Ok <==> self.can_select(weights@)),
            (r matches Ok(i) ==> i < weights@.len() && !bits::is_zero(weights@[i as int])),
    ;
}

#[derive(Clone, Debug)]
pub struct RouletteWheelSelection;

impl RouletteWheelSelection {
    pub fn new() -> Self {
        RouletteWheelSelection
    }
}

impl SelectionMethod for RouletteWheelSelection {
    /// A roulette wheel can select iff there is at least one member, every
    /// fitness is a weight, some fitness is not zero, and the running sum of
    /// the weights is a positive finite value. (The third conjunct follows
    /// from the fourth on real arithmetic; it is stated so that an all-zero
    /// population is unselectable by the contract alone.)
    open spec fn can_select(&self, ws: Seq<u32>) -> bool {
        &&& ws.len() > 0
        &&& all_weights(ws)
        &&& exists|j: int| 0 <= j < ws.len() && !bits::is_zero(#[trigger] ws[j])
        &&& bits::is_positive_finite(running_total(ws))
    }

    fn select(&self, rng: &mut rand_chacha::ChaCha8Rng, weights: &Vec<u32>) -> (r: Result<
        usize,
        SelectError,
    >)
        ensures
            weights@.len() == 0 ==> r == Err::<usize, SelectError>(SelectError::EmptyPopulation),
            weights@.len() > 0 && !all_weights(weights@) ==> r == Err::<usize, SelectError>(
                SelectError::InvalidFitness,
            ),
            weights@.len() > 0 && all_weights(weights@) && bits::is_zero(running_total(weights@))
                ==> r == Err::<usize, SelectError>(SelectError::ZeroTotalFitness),
            weights@.len() > 0 && all_weights(weights@) && !bits::is_zero(running_total(weights@))
                && !bits::is_positive_finite(running_total(weights@)) ==> r == Err::<
                usize,
                SelectError,
            >(SelectError::NonFiniteTotalFitness),
    {
        let n = weights.len();
        if n == 0 {
            return Err(SelectError::EmptyPopulation);
        }
        for i in 0..n
            invariant
                n == weights@.len(),
                forall|j: int| 0 <= j < i ==> bits::is_weight(#[trigger] weights@[j]),
        {
            let w = weights[i];
            if !(w <= bits::POS_INFINITY || w == bits::NEG_ZERO) {
                assert(!bits::is_weight(weights@[i as int]));
                return Err(SelectError::InvalidFitness);
            }
        }
        let mut total = weights[0];
        assert(total == running_total(weights@.take(1)));
        for i in 1..n
            invariant
                n == weights@.len(),
                forall|j: int| 0 <= j < n ==> bits::is_weight(#[trigger] weights@[j]),
                bits::is_weight(total),
                total == running_total(weights@.take(i as int)),
                !bits::is_zero(total) ==> exists|j: int|
                    0 <= j < i && !bits::is_zero(#[trigger] weights@[j]),
        {
            proof {
                lemma_running_total_step(weights@, i as int);
            }
            let ghost was_zero = bits::is_zero(total);
            total = bits::add_single(total, weights[i]);
            proof {
                if !bits::is_zero(total) && was_zero {
                    assert(!bits::is_zero(weights@[i as int]));
                }
            }
        }
        assert(weights@.take(n as int) =~= weights@);
        if total == bits::POS_ZERO || total == bits::NEG_ZERO {
            return Err(SelectError::ZeroTotalFitness);
        }
        if !(total < bits::POS_INFINITY) {
            return Err(SelectError::NonFiniteTotalFitness);
        }
        Ok(weighted_draw(rng, weights))
    }
}

} // verus!
