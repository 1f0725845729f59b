//! Uniform crossover: one child chromosome from two parents of equal length.
//! For each gene position an independent fair coin flip picks the gene of
//! parent A or of parent B. `crossover` only makes the flips; what they pick
//! is the deterministic `crossover_with_flips`, whose contract fixes every
//! gene of the child from the flips alone, so the child is fully determined
//! by the random source's sequence of draws.

use vstd::prelude::*;
use crate::bits;
use crate::chromosome::Chromosome;
use crate::rng;

verus! {

pub trait CrossoverMethod: Sized {
    fn crossover(
        &self,
        rng: &mut rand_chacha::ChaCha8Rng,
        parent_a: &Chromosome,
        parent_b: &Chromosome,
    ) -> (child: Chromosome)
        requires
            parent_a@.len() == parent_b@.len(),
        ensures
            child@.len() == parent_a@.len(),
            forall|i: int|
                0 <= i < child@.len() ==> child@[i] == parent_a@[i] || child@[i] == parent_b@[i],
    ;
}

#[derive(Clone, Debug)]
pub struct UniformCrossover;

impl UniformCrossover {
    pub fn new() -> Self {
        UniformCrossover
    }

    /// The deterministic half of uniform crossover: given one flip per
    /// position, the child's gene at each position is the parent-A gene
    /// where the flip is true and the parent-B gene where it is false.
    pub fn crossover_with_flips(
        &self,
        parent_a: &Chromosome,
        parent_b: &Chromosome,
        flips: &Vec<bool>,
    ) -> (child: Chromosome)
        requires
            parent_a@.len() == parent_b@.len(),
            flips@.len() == parent_a@.len(),
        ensures
            child@.len() == parent_a@.len(),
            forall|i: int|
                0 <= i < child@.len() ==> child@[i] == if flips@[i] {
                    parent_a@[i]
                } else {
                    parent_b@[i]
                },
    {
        let n = parent_a.len();
        let mut genes: Vec<u32> = Vec::new();
        for i in 0..n
            invariant
                n == parent_a@.len() == parent_b@.len() == flips@.len(),
                genes@.len() == i,
                forall|j: int|
                    0 <= j < i ==> genes@[j] == if flips@[j] {
                        parent_a@[j]
                    } else {
                        parent_b@[j]
                    },
        {
            let gene = if flips[i] {
                parent_a.get(i)
            } else {
                parent_b.get(i)
            };
            genes.push(gene);
        }
        Chromosome::from_genes(genes)
    }
}

impl CrossoverMethod for UniformCrossover {
    fn crossover(
        &self,
        rng: &mut rand_chacha::ChaCha8Rng,
        parent_a: &Chromosome,
        parent_b: &Chromosome,
    ) -> (child: Chromosome)
    {
        let n = parent_a.len();
        let mut flips: Vec<bool> = Vec::new();
        for i in 0..n
            invariant
                flips@.len() == i,
        {
            flips.push(rng::bernoulli_draw(rng, bits::ONE_HALF));
        }
        self.crossover_with_flips(parent_a, parent_b, &flips)
    }
}

} // verus!
