use evolver::Chromosome;
use evolver::CrossoverMethod;
use evolver::GaussianMutation;
use evolver::MutationMethod;
use evolver::UniformCrossover;
use rand::SeedableRng;
use rand_chacha::ChaCha8Rng;

fn bits_of(values: &[f32]) -> Vec<u32> {
    values.iter().map(|v| v.to_bits()).collect()
}

fn floats_of(chromosome: &Chromosome) -> Vec<f32> {
    chromosome.genes.iter().map(|&b| f32::from_bits(b)).collect()
}

fn relative_eq(a: f32, b: f32) -> bool {
    if a == b {
        return true;
    }
    let diff = (a - b).abs();
    diff <= f32::EPSILON || diff <= f32::EPSILON * a.abs().max(b.abs())
}

#[test]
fn crossover_test() {
    let mut rng = ChaCha8Rng::from_seed(Default::default());
    let parent_a = Chromosome::from_genes(bits_of(
        &(1..100).map(|n| n as f32).collect::<Vec<f32>>(),
    ));
    let parent_b = Chromosome::from_genes(bits_of(
        &(1..100).map(|n| -n as f32).collect::<Vec<f32>>(),
    ));

    let child = UniformCrossover::new().crossover(&mut rng, &parent_a, &parent_b);

    let child_genes = floats_of(&child);
    let diff_a = child_genes
        .iter()
        .zip(floats_of(&parent_a))
        .filter(|(c, p)| **c != *p)
        .count();
    let diff_b = child_genes
        .iter()
        .zip(floats_of(&parent_b))
        .filter(|(c, p)| **c != *p)
        .count();

    assert_eq!(diff_a, 49);
    assert_eq!(diff_b, 50);
}

fn mutated(chance: f32, coeff: f32) -> Vec<f32> {
    let mut child = Chromosome::from_genes(bits_of(&[1.0, 2.0, 3.0, 4.0, 5.0]));
    let mut rng = ChaCha8Rng::from_seed(Default::default());

    GaussianMutation::new(chance.to_bits(), coeff.to_bits()).mutate(&mut rng, &mut child);

    floats_of(&child)
}

#[test]
fn zero_chance_zero_coefficient_does_not_change_the_original_chromosome() {
    let actual = mutated(0.0, 0.0);
    let expected = vec![1.0, 2.0, 3.0, 4.0, 5.0];

    for (a, e) in actual.iter().zip(expected.iter()) {
        assert!(relative_eq(*a, *e));
    }
}

#[test]
fn zero_chance_nonzero_coefficient_does_not_change_the_original_chromosome() {
    let actual = mutated(0.0, 0.5);
    let expected = vec![1.0, 2.0, 3.0, 4.0, 5.0];

    for (a, e) in actual.iter().zip(expected.iter()) {
        assert!(relative_eq(*a, *e));
    }
}

#[test]
fn full_chance_changes_every_gene() {
    let actual = mutated(1.0, 0.5);
    let expected = vec![1.0, 2.0, 3.0, 4.0, 5.0];

    let changed = actual
        .iter()
        .zip(expected.iter())
        .filter(|(a, e)| a != e)
        .count();
    assert!(changed > 0);
    for (a, e) in actual.iter().zip(expected.iter()) {
        assert!((a - e).abs() <= 0.5);
    }
}

#[test]
fn crossover_with_flips_picks_per_position() {
    let parent_a = Chromosome::from_genes(bits_of(&[1.0, 2.0, 3.0]));
    let parent_b = Chromosome::from_genes(bits_of(&[-1.0, -2.0, -3.0]));
    let flips = vec![true, false, true];

    let child = UniformCrossover::new().crossover_with_flips(&parent_a, &parent_b, &flips);

    assert_eq!(floats_of(&child), vec![1.0, -2.0, 3.0]);
}

#[test]
fn mutate_with_draws_applies_exact_perturbation() {
    let mut child = Chromosome::from_genes(bits_of(&[1.0, 2.0]));
    let mutation = GaussianMutation::new(1.0f32.to_bits(), 2.0f32.to_bits());
    let draws = vec![
        evolver::GeneDraw {
            negative: false,
            apply: true,
            magnitude: 0.5f32.to_bits(),
        },
        evolver::GeneDraw {
            negative: true,
            apply: false,
            magnitude: 0.0f32.to_bits(),
        },
    ];

    mutation.mutate_with_draws(&mut child, &draws);

    // Gene 0: 1.0 + (1.0 * 2.0) * 0.5 = 2.0; gene 1 is untouched.
    assert_eq!(floats_of(&child), vec![2.0, 2.0]);
}

#[test]
fn mutation_chance_validation() {
    assert!(GaussianMutation::try_new(1.5f32.to_bits(), 0.5f32.to_bits()).is_none());
    assert!(GaussianMutation::try_new((-0.1f32).to_bits(), 0.5f32.to_bits()).is_none());
    assert!(GaussianMutation::try_new(f32::NAN.to_bits(), 0.5f32.to_bits()).is_none());
    assert!(GaussianMutation::try_new(f32::INFINITY.to_bits(), 0.5f32.to_bits()).is_none());
    assert!(GaussianMutation::try_new(0.0f32.to_bits(), 0.5f32.to_bits()).is_some());
    assert!(GaussianMutation::try_new((-0.0f32).to_bits(), 0.5f32.to_bits()).is_some());
    assert!(GaussianMutation::try_new(1.0f32.to_bits(), 0.5f32.to_bits()).is_some());
    assert!(GaussianMutation::try_new(0.5f32.to_bits(), (-123.0f32).to_bits()).is_some());
}
