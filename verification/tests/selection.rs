use evolver::population_weights;
use evolver::Individual;
use evolver::RouletteWheelSelection;
use evolver::SelectError;
use evolver::SelectionMethod;
use evolver::TestIndividual;
use rand::SeedableRng;
use rand_chacha::ChaCha8Rng;
use std::collections::BTreeMap;

#[test]
fn selection_histogram_test() {
    let method = RouletteWheelSelection::new();
    let mut rng = ChaCha8Rng::from_seed(Default::default());

    let population = vec![
        TestIndividual::new(2.0f32.to_bits()),
        TestIndividual::new(1.0f32.to_bits()),
        TestIndividual::new(4.0f32.to_bits()),
        TestIndividual::new(3.0f32.to_bits()),
    ];
    let weights = population_weights(&population);

    let mut actual_histogram = BTreeMap::new();
    for _ in 0..1000 {
        let index = method.select(&mut rng, &weights).unwrap();
        let fitness = f32::from_bits(population[index].fitness()) as i32;

        *actual_histogram.entry(fitness).or_insert(0) += 1;
    }

    let expected_histogram = BTreeMap::from_iter(vec![(1, 98), (2, 202), (3, 278), (4, 422)]);

    assert_eq!(actual_histogram, expected_histogram);
}

#[test]
fn selection_fails_on_empty_population() {
    let method = RouletteWheelSelection::new();
    let mut rng = ChaCha8Rng::from_seed(Default::default());
    let weights: Vec<u32> = Vec::new();

    assert_eq!(
        method.select(&mut rng, &weights),
        Err(SelectError::EmptyPopulation)
    );
}

#[test]
fn selection_fails_on_all_zero_fitness() {
    let method = RouletteWheelSelection::new();
    let mut rng = ChaCha8Rng::from_seed(Default::default());
    let weights = vec![0.0f32.to_bits(), (-0.0f32).to_bits(), 0.0f32.to_bits()];

    assert_eq!(
        method.select(&mut rng, &weights),
        Err(SelectError::ZeroTotalFitness)
    );
}

#[test]
fn selection_fails_on_negative_fitness() {
    let method = RouletteWheelSelection::new();
    let mut rng = ChaCha8Rng::from_seed(Default::default());
    let weights = vec![1.0f32.to_bits(), (-2.0f32).to_bits()];

    assert_eq!(
        method.select(&mut rng, &weights),
        Err(SelectError::InvalidFitness)
    );
}

#[test]
fn selection_fails_on_nan_fitness() {
    let method = RouletteWheelSelection::new();
    let mut rng = ChaCha8Rng::from_seed(Default::default());
    let weights = vec![1.0f32.to_bits(), f32::NAN.to_bits()];

    assert_eq!(
        method.select(&mut rng, &weights),
        Err(SelectError::InvalidFitness)
    );
}

#[test]
fn selection_fails_on_infinite_total() {
    let method = RouletteWheelSelection::new();
    let mut rng = ChaCha8Rng::from_seed(Default::default());
    let weights = vec![f32::MAX.to_bits(), f32::MAX.to_bits()];

    assert_eq!(
        method.select(&mut rng, &weights),
        Err(SelectError::NonFiniteTotalFitness)
    );
}

#[test]
fn selection_never_picks_a_zero_weight() {
    let method = RouletteWheelSelection::new();
    let mut rng = ChaCha8Rng::from_seed(Default::default());
    let weights = vec![0.0f32.to_bits(), 5.0f32.to_bits(), 0.0f32.to_bits()];

    for _ in 0..100 {
        assert_eq!(method.select(&mut rng, &weights), Ok(1));
    }
}
