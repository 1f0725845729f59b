use evolver::Chromosome;
use evolver::GaussianMutation;
use evolver::GeneticAlgorithm;
use evolver::Individual;
use evolver::RouletteWheelSelection;
use evolver::SelectError;
use evolver::TestIndividual;
use evolver::UniformCrossover;
use rand::SeedableRng;
use rand_chacha::ChaCha8Rng;

fn bits_of(values: &[f32]) -> Vec<u32> {
    values.iter().map(|v| v.to_bits()).collect()
}

fn individual(genes: &[f32]) -> TestIndividual {
    TestIndividual::create(Chromosome::from_genes(bits_of(genes)))
}

fn genes_of(member: &TestIndividual) -> Vec<f32> {
    member
        .chromosome()
        .genes
        .iter()
        .map(|&b| f32::from_bits(b))
        .collect()
}

fn relative_eq(a: f32, b: f32) -> bool {
    if a == b {
        return true;
    }
    let diff = (a - b).abs();
    diff <= f32::EPSILON || diff <= f32::EPSILON * a.abs().max(b.abs())
}

fn algorithm() -> GeneticAlgorithm<RouletteWheelSelection, UniformCrossover, GaussianMutation> {
    GeneticAlgorithm::new(
        RouletteWheelSelection::new(),
        UniformCrossover::new(),
        GaussianMutation::new(0.5f32.to_bits(), 0.5f32.to_bits()),
    )
}

#[test]
fn population_expected_test() {
    let mut rng = ChaCha8Rng::from_seed(Default::default());
    let ga = algorithm();

    let mut population = vec![
        individual(&[0.0, 0.0, 0.0]),
        individual(&[1.0, 1.0, 1.0]),
        individual(&[1.0, 2.0, 1.0]),
        individual(&[1.0, 2.0, 4.0]),
    ];

    for _ in 0..10 {
        population = ga.evolve(&mut rng, &population).unwrap();
    }

    let expected_population = vec![
        vec![0.44769490, 2.0648358, 4.3058133],
        vec![1.21268670, 1.5538777, 2.8869110],
        vec![1.06176780, 2.2657390, 4.4287640],
        vec![0.95909685, 2.4618788, 4.0247330],
    ];

    assert_eq!(population.len(), expected_population.len());
    for (member, expected) in population.iter().zip(expected_population.iter()) {
        let genes = genes_of(member);
        assert_eq!(genes.len(), expected.len());
        for (g, e) in genes.iter().zip(expected.iter()) {
            assert!(relative_eq(*g, *e), "gene {} differs from {}", g, e);
        }
    }
}

#[test]
fn evolve_preserves_population_size() {
    let ga = algorithm();
    for n in 1..6usize {
        let mut rng = ChaCha8Rng::from_seed(Default::default());
        let population: Vec<TestIndividual> =
            (0..n).map(|i| individual(&[1.0, i as f32 + 1.0])).collect();
        let next = ga.evolve(&mut rng, &population).unwrap();
        assert_eq!(next.len(), n);
    }
}

#[test]
fn evolve_empty_population_stays_empty() {
    let ga = algorithm();
    let mut rng = ChaCha8Rng::from_seed(Default::default());
    let population: Vec<TestIndividual> = Vec::new();
    let next = ga.evolve(&mut rng, &population).unwrap();
    assert!(next.is_empty());
}

#[test]
fn evolve_fails_on_zero_fitness_population() {
    let ga = algorithm();
    let mut rng = ChaCha8Rng::from_seed(Default::default());
    let population = vec![individual(&[0.0, 0.0]), individual(&[0.0, -0.0])];
    assert_eq!(
        ga.evolve(&mut rng, &population),
        Err(SelectError::ZeroTotalFitness)
    );
}

#[test]
fn evolve_reproducible_for_fixed_seed() {
    let ga = algorithm();
    let seed = [7u8; 32];

    let run = || {
        let mut rng = ChaCha8Rng::from_seed(seed);
        let mut population = vec![
            individual(&[0.5, 1.5, -0.25]),
            individual(&[2.0, 0.125, 1.0]),
            individual(&[1.0, 1.0, 1.0]),
        ];
        for _ in 0..5 {
            population = ga.evolve(&mut rng, &population).unwrap();
        }
        population
            .iter()
            .map(|m| genes_of(m))
            .collect::<Vec<Vec<f32>>>()
    };

    let first = run();
    let second = run();
    assert_eq!(first, second);
}
