//! The generational loop. An `Individual` is anything that reports a scalar
//! fitness, exposes its chromosome, and can be rebuilt from a chromosome; the
//! orchestrator is generic over that capability and over the three operators.
//! One `evolve` call breeds a full replacement population of the same size:
//! for each slot it selects two parents, crosses their chromosomes, mutates
//! the child in place, and rebuilds a member from it. The random draws are
//! strictly ordered — two selection draws, then the crossover draws, then
//! the mutation draws, repeated once per slot — so a fixed seed fixes the
//! whole new population.

use vstd::prelude::*;
use crate::bits;
use crate::chromosome::Chromosome;
use crate::crossover::CrossoverMethod;
use crate::mutation::MutationMethod;
use crate::selection::SelectError;
use crate::selection::SelectionMethod;

verus! {

pub trait Individual: Sized {
    /// Pattern of this member's fitness value; meaningful where
    /// `fitness_exact` holds.
    spec fn fitness_spec(&self) -> u32;

    /// The member's fitness pattern is a function of its state. Where it is
    /// not — a single-precision sum of its genes can produce a NaN, whose
    /// pattern the machine does not fix — the member still owes a NaN.
    spec fn fitness_exact(&self) -> bool;

    /// The member carries a chromosome that can be asked for.
    spec fn has_genes(&self) -> bool;

    /// The genes of that chromosome.
    spec fn genes_spec(&self) -> Seq<u32>;

    /// Builds a fresh member from a chromosome.
    fn create(chromosome: Chromosome) -> (r: Self)
        ensures
            r.has_genes(),
            r.genes_spec() == chromosome@,
    ;

    /// Reports the member's scalar fitness.
    fn fitness(&self) -> (r: u32)
        ensures
            self.fitness_exact() ==> r == self.fitness_spec(),
            !self.fitness_exact() ==> bits::is_nan(r),
    ;

    /// Borrows the member's chromosome.
    fn chromosome(&self) -> (r: &Chromosome)
        requires
            self.has_genes(),
        ensures
            r@ == self.genes_spec(),
    ;
}

/// The fitness patterns of a population, in population order.
pub open spec fn fitnesses<I: Individual>(population: Seq<I>) -> Seq<u32> {
    population.map_values(|member: I| member.fitness_spec())
}

/// Collects each member's fitness pattern, in population order: the weights
/// that fitness-proportionate selection draws over.
pub fn population_weights<I: Individual>(population: &[I]) -> (r: Vec<u32>)
    ensures
        r@.len() == population@.len(),
        forall|i: int|
            0 <= i < population@.len() && (#[trigger] population@[i]).fitness_exact() ==> r@[i]
                == population@[i].fitness_spec(),
        forall|i: int|
            0 <= i < population@.len() && !(#[trigger] population@[i]).fitness_exact()
                ==> bits::is_nan(r@[i]),
{
    let n = population.len();
    let mut weights: Vec<u32> = Vec::new();
    for idx in 0..n
        invariant
            n == population@.len(),
            weights@.len() == idx,
            forall|i: int|
                0 <= i < idx && (#[trigger] population@[i]).fitness_exact() ==> weights@[i]
                    == population@[i].fitness_spec(),
            forall|i: int|
                0 <= i < idx && !(#[trigger] population@[i]).fitness_exact() ==> bits::is_nan(
                    weights@[i],
                ),
    {
        weights.push(population[idx].fitness());
    }
    weights
}

/// The gene `gene` could have come from some member of the population at
/// position `j`: it equals that member's gene there, or is that gene with
/// one application of the mutation operator's effect.
pub open spec fn gene_from_population<I: Individual, M: MutationMethod>(
    mutation: M,
    population: Seq<I>,
    j: int,
    gene: u32,
) -> bool {
    exists|p: int|
        0 <= p < population.len() && ((#[trigger] population[p].genes_spec())[j] == gene
            || mutation.gene_effect(population[p].genes_spec()[j], gene))
}

pub struct GeneticAlgorithm<S, C, M> {
    pub selection_method: S,
    pub crossover_method: C,
    pub mutation_method: M,
}

impl<S: SelectionMethod, C: CrossoverMethod, M: MutationMethod> GeneticAlgorithm<S, C, M> {
    pub fn new(selection_method: S, crossover_method: C, mutation_method: M) -> (r: Self)
        ensures
            r.selection_method == selection_method,
            r.crossover_method == crossover_method,
            r.mutation_method == mutation_method,
    {
        GeneticAlgorithm { selection_method, crossover_method, mutation_method }
    }

    /// One generational step: breeds a new population of the same size as
    /// the input, which it never mutates, and surfaces the selection error
    /// unchanged if the input's fitnesses admit no selection. Every bred
    /// member carries a chromosome of the common parental length, and each
    /// of its genes comes from some population member at the same position,
    /// either unchanged through crossover or with one application of the
    /// mutation operator's effect.
    pub fn evolve<I: Individual>(
        &self,
        rng: &mut rand_chacha::ChaCha8Rng,
        population: &[I],
    ) -> (r: Result<Vec<I>, SelectError>)
        requires
            self.mutation_method.valid(),
            forall|i: int|
                0 <= i < population@.len() ==> (#[trigger] population@[i]).has_genes(),
            forall|i: int, j: int|
                0 <= i < population@.len() && 0 <= j < population@.len()
                    ==> population@[i].genes_spec().len() == population@[j].genes_spec().len(),
        ensures
            (forall|i: int|
                0 <= i < population@.len() ==> (#[trigger] population@[i]).fitness_exact()) ==> (r
                is Ok <==> population@.len() == 0 || self.selection_method.can_select(
                fitnesses(population@),
            )),
            population@.len() == 0 ==> r is Ok,
            (r matches Ok(out) ==> out@.len() == population@.len()),
            (r matches Ok(out) ==> forall|k: int|
                0 <= k < out@.len() ==> (#[trigger] out@[k]).has_genes() && out@[k].genes_spec().len()
                    == population@[k].genes_spec().len()),
            (r matches Ok(out) ==> forall|k: int, j: int|
                0 <= k < out@.len() && 0 <= j < out@[k].genes_spec().len()
                    ==> gene_from_population(
                    self.mutation_method,
                    population@,
                    j,
                    #[trigger] out@[k].genes_spec()[j],
                )),
    {
        let n = population.len();
        let weights = population_weights(population);
        let mut out: Vec<I> = Vec::new();
        for k in 0..n
            invariant
                self.mutation_method.valid(),
                n == population@.len(),
                weights@.len() == n,
                forall|i: int|
                    0 <= i < n && (#[trigger] population@[i]).fitness_exact() ==> weights@[i]
                        == population@[i].fitness_spec(),
                forall|i: int|
                    0 <= i < n ==> (#[trigger] population@[i]).has_genes(),
                forall|i: int, j: int|
                    0 <= i < n && 0 <= j < n ==> population@[i].genes_spec().len()
                        == population@[j].genes_spec().len(),
                k > 0 ==> self.selection_method.can_select(weights@),
                out@.len() == k,
                forall|m: int|
                    0 <= m < out@.len() ==> (#[trigger] out@[m]).has_genes()
                        && out@[m].genes_spec().len() == population@[m].genes_spec().len(),
                forall|m: int, j: int|
                    0 <= m < out@.len() && 0 <= j < out@[m].genes_spec().len()
                        ==> gene_from_population(
                        self.mutation_method,
                        population@,
                        j,
                        #[trigger] out@[m].genes_spec()[j],
                    ),
        {
            let index_a = match self.selection_method.select(rng, &weights) {
                Ok(i) => i,
                Err(e) => {
                    proof {
                        lemma_exact_weights(population@, weights@);
                    }
                    return Err(e);
                },
            };
            let index_b = match self.selection_method.select(rng, &weights) {
                Ok(i) => i,
                Err(e) => {
                    proof {
                        lemma_exact_weights(population@, weights@);
                    }
                    return Err(e);
                },
            };
            let parent_a = population[index_a].chromosome();
            let parent_b = population[index_b].chromosome();
            let mut child = self.crossover_method.crossover(rng, parent_a, parent_b);
            let ghost crossed = child@;
            self.mutation_method.mutate(rng, &mut child);
            proof {
                assert forall|j: int| 0 <= j < child@.len() implies gene_from_population(
                    self.mutation_method,
                    population@,
                    j,
                    child@[j],
                ) by {
                    let p: int = if crossed[j] == population@[index_a as int].genes_spec()[j] {
                        index_a as int
                    } else {
                        index_b as int
                    };
                    assert(crossed[j] == population@[p].genes_spec()[j]);
                    assert(child@[j] == crossed[j] || self.mutation_method.gene_effect(
                        crossed[j],
                        child@[j],
                    ));
                    assert(0 <= p < population@.len() && (population@[p].genes_spec()[j]
                        == child@[j] || self.mutation_method.gene_effect(
                        population@[p].genes_spec()[j],
                        child@[j],
                    )));
                }
            }
            out.push(I::create(child));
        }
        proof {
            lemma_exact_weights(population@, weights@);
        }
        Ok(out)
    }
}

/// Where every member's fitness is exact, the collected weights are the
/// population's fitness patterns.
proof fn lemma_exact_weights<I: Individual>(population: Seq<I>, ws: Seq<u32>)
    requires
        ws.len() == population.len(),
        forall|i: int|
            0 <= i < population.len() && (#[trigger] population[i]).fitness_exact() ==> ws[i]
                == population[i].fitness_spec(),
    ensures
        (forall|i: int| 0 <= i < population.len() ==> (#[trigger] population[i]).fitness_exact())
            ==> ws == fitnesses(population),
{
    if forall|i: int| 0 <= i < population.len() ==> (#[trigger] population[i]).fitness_exact() {
        assert(ws =~= fitnesses(population));
    }
}

/// A population member for exercising the loop: either a bred member that
/// carries a chromosome, whose fitness is the running sum of its genes, or a
/// hand-made member that carries a bare fitness pattern and no chromosome.
#[derive(Clone, Debug, PartialEq)]
pub enum TestIndividual {
    WithChromosome { chromosome: Chromosome },
    WithFitness { fitness: u32 },
}

impl TestIndividual {
    pub fn new(fitness: u32) -> (r: Self)
        ensures
            r == (TestIndividual::WithFitness { fitness }),
    {
        TestIndividual::WithFitness { fitness }
    }
}

impl Individual for TestIndividual {
    open spec fn fitness_spec(&self) -> u32 {
        match self {
            TestIndividual::WithChromosome { chromosome } => bits::fold_sum(chromosome@),
            TestIndividual::WithFitness { fitness } => *fitness,
        }
    }

    /// A stored fitness is its own pattern; a gene sum is exact as long as
    /// every addition step stays on the deterministic domain.
    open spec fn fitness_exact(&self) -> bool {
        match self {
            TestIndividual::WithChromosome { chromosome } => bits::fold_sum_deterministic(
                chromosome@,
            ),
            TestIndividual::WithFitness { .. } => true,
        }
    }

    open spec fn has_genes(&self) -> bool {
        self is WithChromosome
    }

    open spec fn genes_spec(&self) -> Seq<u32> {
        match self {
            TestIndividual::WithChromosome { chromosome } => chromosome@,
            TestIndividual::WithFitness { .. } => Seq::empty(),
        }
    }

    fn create(chromosome: Chromosome) -> (r: Self) {
        TestIndividual::WithChromosome { chromosome }
    }

    /// The fitness of a bred member is its genes' running single-precision
    /// sum, added left to right from zero; where some step leaves the
    /// deterministic domain the sum is a NaN.
    fn fitness(&self) -> (r: u32) {
        match self {
            TestIndividual::WithChromosome { chromosome } => {
                let n = chromosome.len();
                let mut total: u32 = bits::POS_ZERO;
                for i in 0..n
                    invariant
                        n == chromosome@.len(),
                        bits::fold_sum_deterministic(chromosome@.take(i as int)) ==> total
                            == bits::fold_sum(chromosome@.take(i as int)),
                        !bits::fold_sum_deterministic(chromosome@.take(i as int))
                            ==> bits::is_nan(total),
                {
                    proof {
                        assert(chromosome@.take(i + 1).drop_last() =~= chromosome@.take(i as int));
                    }
                    total = bits::add_single(total, chromosome.get(i));
                }
                proof {
                    assert(chromosome@.take(n as int) =~= chromosome@);
                }
                total
            },
            TestIndividual::WithFitness { fitness } => *fitness,
        }
    }

    fn chromosome(&self) -> (r: &Chromosome) {
        match self {
            TestIndividual::WithChromosome { chromosome } => chromosome,
            TestIndividual::WithFitness { .. } => vstd::pervasive::unreached(),
        }
    }
}

} // verus!
