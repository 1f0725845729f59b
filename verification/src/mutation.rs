//! Gaussian mutation: perturbs a chromosome's genes in place. For every gene
//! a sign is drawn from a fair coin, and then, with the configured chance, a
//! magnitude uniform in [0, 1) is drawn and sign * coefficient * magnitude is
//! added to the gene. The sign draw is always consumed, whether or not the
//! perturbation is applied, which fixes the random source's consumption
//! order. `mutate` only makes the draws; what they do to the genes is the
//! deterministic `mutate_with_draws`, whose contract fixes every gene of the
//! result from the draws alone.

use vstd::prelude::*;
use crate::bits;
use crate::chromosome::Chromosome;
use crate::rng;

verus! {

pub trait MutationMethod: Sized {
    /// The operator's configuration is usable; what that takes is the
    /// implementor's business.
    spec fn valid(&self) -> bool;

    /// What the operator may do to one gene that it changes.
    spec fn gene_effect(&self, before: u32, after: u32) -> bool;

    fn mutate(
        &self,
        rng: &mut rand_chacha::ChaCha8Rng,
        child: &mut Chromosome,
    )
        requires
            self.valid(),
        ensures
            final(child)@.len() == old(child)@.len(),
            forall|i: int|
                0 <= i < old(child)@.len() ==> #[trigger] final(child)@[i] == old(child)@[i]
                    || self.gene_effect(old(child)@[i], final(child)@[i]),
    ;
}

#[derive(Clone, Debug)]
pub struct GaussianMutation {
    /// Pattern of the probability that a given gene is perturbed; always in
    /// [0, 1].
    pub chance: u32,
    /// Pattern of the scale of a perturbation; unconstrained.
    pub coeff: u32,
}

/// The random draws one gene consumes: the coin for the perturbation's sign
/// (always drawn), whether the perturbation is applied, and the magnitude
/// (drawn only when it is applied; meaningless otherwise).
#[derive(Clone, Copy, Debug)]
pub struct GeneDraw {
    pub negative: bool,
    pub apply: bool,
    pub magnitude: u32,
}

impl GeneDraw {
    /// Pattern of the sign the coin chose: -1.0 or 1.0.
    pub open spec fn sign(&self) -> u32 {
        if self.negative {
            bits::NEG_ONE
        } else {
            bits::ONE
        }
    }
}

/// What one gene becomes under one draw: unchanged when the perturbation is
/// not applied; otherwise the single-precision result of adding
/// sign * coefficient * magnitude, multiplied left to right, each step
/// either the exact rounded value or, off the deterministic domain, a NaN.
pub open spec fn mutated_gene_ok(m: GaussianMutation, draw: GeneDraw, before: u32, after: u32) -> bool {
    if !draw.apply {
        after == before
    } else {
        exists|scaled: u32, delta: u32|
            bits::mul_result_ok(draw.sign(), m.coeff, scaled) && #[trigger] bits::mul_result_ok(
                scaled,
                draw.magnitude,
                delta,
            ) && bits::add_result_ok(before, delta, after)
    }
}

/// The gene `after` is the gene `before` with one perturbation of the
/// operator's shape added: sign times coefficient times some magnitude drawn
/// from [0, 1), each operation either exact or yielding a NaN off the
/// deterministic domain.
pub open spec fn perturbed_by(m: GaussianMutation, before: u32, after: u32) -> bool {
    exists|draw: GeneDraw|
        #[trigger] mutated_gene_ok(m, draw, before, after) && draw.apply && draw.magnitude
            < bits::ONE
}

impl GaussianMutation {
    /// Builds the operator. The chance must be a probability: a
    /// single-precision value in [0, 1]. `try_new` states in general when
    /// construction succeeds.
    pub fn new(chance: u32, coeff: u32) -> (r: Self)
        requires
            bits::is_unit_interval(chance),
        ensures
            r.chance == chance,
            r.coeff == coeff,
    {
        GaussianMutation { chance, coeff }
    }

    /// Builds the operator if and only if the chance is a probability, and
    /// reports the rejection otherwise: every pattern outside [0, 1] — a
    /// negative value, a value above one, an infinity or a NaN — fails
    /// construction. The coefficient is unconstrained.
    pub fn try_new(chance: u32, coeff: u32) -> (r: Option<Self>)
        ensures
            r is Some <==> bits::is_unit_interval(chance),
            (r matches Some(m) ==> m.chance == chance && m.coeff == coeff),
    {
        if chance <= bits::ONE || chance == bits::NEG_ZERO {
            Some(GaussianMutation { chance, coeff })
        } else {
            None
        }
    }

    /// Applies one given draw per gene, in place: deterministic in the
    /// draws, every resulting gene fixed by `mutated_gene_ok`.
    pub fn mutate_with_draws(&self, child: &mut Chromosome, draws: &Vec<GeneDraw>)
        requires
            draws@.len() == old(child)@.len(),
        ensures
            final(child)@.len() == old(child)@.len(),
            forall|i: int|
                0 <= i < old(child)@.len() ==> #[trigger] mutated_gene_ok(
                    *self,
                    draws@[i],
                    old(child)@[i],
                    final(child)@[i],
                ),
    {
        let n = child.len();
        for i in 0..n
            invariant
                n == child@.len() == draws@.len(),
                forall|j: int| i <= j < n ==> #[trigger] child@[j] == old(child)@[j],
                forall|j: int|
                    0 <= j < i ==> #[trigger] mutated_gene_ok(
                        *self,
                        draws@[j],
                        old(child)@[j],
                        child@[j],
                    ),
        {
            let draw = draws[i];
            if draw.apply {
                let sign = if draw.negative {
                    bits::NEG_ONE
                } else {
                    bits::ONE
                };
                let scaled = bits::mul_single(sign, self.coeff);
                let delta = bits::mul_single(scaled, draw.magnitude);
                let gene = bits::add_single(child.get(i), delta);
                proof {
                    assert(mutated_gene_ok(*self, draws@[i as int], old(child)@[i as int], gene))
                        by {
                        assert(bits::mul_result_ok(draws@[i as int].sign(), self.coeff, scaled)
                            && bits::mul_result_ok(scaled, draw.magnitude, delta)
                            && bits::add_result_ok(old(child)@[i as int], delta, gene));
                    }
                }
                child.set(i, gene);
            }
        }
    }
}

impl MutationMethod for GaussianMutation {
    /// The chance is a probability.
    open spec fn valid(&self) -> bool {
        bits::is_unit_interval(self.chance)
    }

    /// A changed gene differs by one perturbation of the operator's shape.
    open spec fn gene_effect(&self, before: u32, after: u32) -> bool {
        perturbed_by(*self, before, after)
    }

    fn mutate(
        &self,
        rng: &mut rand_chacha::ChaCha8Rng,
        child: &mut Chromosome,
    )
        ensures
            bits::is_zero(self.chance) ==> final(child)@ == old(child)@,
    {
        let n = child.len();
        let mut draws: Vec<GeneDraw> = Vec::new();
        for i in 0..n
            invariant
                bits::is_unit_interval(self.chance),
                n == child@.len(),
                child@ == old(child)@,
                draws@.len() == i,
                forall|j: int|
                    0 <= j < i ==> (#[trigger] draws@[j]).apply ==> draws@[j].magnitude
                        < bits::ONE,
                bits::is_zero(self.chance) ==> forall|j: int| 0 <= j < i ==> !(
                #[trigger] draws@[j]).apply,
        {
            let negative = rng::bernoulli_draw(rng, bits::ONE_HALF);
            let apply = rng::bernoulli_draw(rng, self.chance);
            let magnitude = if apply {
                rng::unit_draw(rng)
            } else {
                bits::POS_ZERO
            };
            draws.push(GeneDraw { negative, apply, magnitude });
        }
        self.mutate_with_draws(child, &draws);
        proof {
            assert forall|i: int|
                0 <= i < old(child)@.len() implies #[trigger] child@[i] == old(child)@[i]
                || perturbed_by(*self, old(child)@[i], child@[i]) by {
                assert(mutated_gene_ok(*self, draws@[i], old(child)@[i], child@[i]));
                if child@[i] != old(child)@[i] {
                    assert(draws@[i].apply);
                    assert(draws@[i].magnitude < bits::ONE);
                }
            }
            if bits::is_zero(self.chance) {
                assert forall|i: int| 0 <= i < old(child)@.len() implies child@[i] == old(
                    child,
                )@[i] by {
                    assert(mutated_gene_ok(*self, draws@[i], old(child)@[i], child@[i]));
                    assert(!draws@[i].apply);
                }
                assert(child@ =~= old(child)@);
            }
        }
    }
}

} // verus!
