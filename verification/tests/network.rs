use evolver::Chromosome;
use evolver::LayerTopology;
use evolver::Network;
use evolver::Neuron;
use rand::SeedableRng;
use rand_chacha::ChaCha8Rng;

fn bits_of(values: &[f32]) -> Vec<u32> {
    values.iter().map(|v| v.to_bits()).collect()
}

fn relative_eq(a: f32, b: f32) -> bool {
    if a == b {
        return true;
    }
    let diff = (a - b).abs();
    diff <= f32::EPSILON || diff <= f32::EPSILON * a.abs().max(b.abs())
}

#[test]
fn neuron_random_test() {
    let mut rng = ChaCha8Rng::from_seed(Default::default());
    let neuron = Neuron::random(&mut rng, 4);

    assert!(relative_eq(f32::from_bits(neuron.bias), -0.6255188));

    let expected_weights = [0.67383957, 0.8181262, 0.26284897, 0.5238807];
    assert_eq!(neuron.weights.len(), expected_weights.len());
    for (w, e) in neuron.weights.iter().zip(expected_weights.iter()) {
        assert!(relative_eq(f32::from_bits(*w), *e));
    }
}

#[test]
fn neuron_propagate_test() {
    let neuron = Neuron {
        bias: 0.5f32.to_bits(),
        weights: bits_of(&[-0.3, 0.8]),
    };

    let clipped = neuron.propagate(&bits_of(&[-10.0, -10.0]));
    assert!(relative_eq(f32::from_bits(clipped), 0.0));

    let positive = neuron.propagate(&bits_of(&[0.5, 1.0]));
    assert!(relative_eq(
        f32::from_bits(positive),
        (-0.3 * 0.5) + (0.8 * 1.0) + 0.5
    ));
}

#[test]
fn network_random_shape_test() {
    let mut rng = ChaCha8Rng::from_seed(Default::default());
    let topology = [
        LayerTopology { neurons: 3 },
        LayerTopology { neurons: 2 },
        LayerTopology { neurons: 1 },
    ];
    let network = Network::random(&mut rng, &topology);

    assert_eq!(network.layers.len(), 2);
    assert_eq!(network.layers[0].neurons.len(), 2);
    assert_eq!(network.layers[1].neurons.len(), 1);
    for neuron in &network.layers[0].neurons {
        assert_eq!(neuron.weights.len(), 3);
        assert!(f32::from_bits(neuron.bias).abs() <= 1.0);
        for w in &neuron.weights {
            assert!(f32::from_bits(*w).abs() <= 1.0);
        }
    }
    assert_eq!(network.layers[1].neurons[0].weights.len(), 2);
}

#[test]
fn network_propagate_known_values_test() {
    // One layer of one neuron: output = max(0, bias + dot(input, weights)).
    let network = Network {
        layers: vec![evolver::Layer {
            neurons: vec![Neuron {
                bias: 0.25f32.to_bits(),
                weights: bits_of(&[1.0, -1.0]),
            }],
        }],
    };

    let out = network.propagate(bits_of(&[2.0, 0.5]));
    assert_eq!(out.len(), 1);
    assert!(relative_eq(f32::from_bits(out[0]), 2.0 - 0.5 + 0.25));
}

#[test]
fn network_chromosome_round_trip_test() {
    let topology = [
        LayerTopology { neurons: 2 },
        LayerTopology { neurons: 2 },
        LayerTopology { neurons: 1 },
    ];
    // Layer 1: two neurons of (bias, two weights); layer 2: one neuron of
    // (bias, two weights): nine genes in all, in flattening order.
    let genes = bits_of(&[0.1, 0.2, 0.3, -0.4, -0.5, -0.6, 0.7, 0.8, 0.9]);
    let chromosome = Chromosome::from_genes(genes.clone());

    let network = Network::from_chromosome(&topology, &chromosome);
    assert_eq!(network.layers.len(), 2);
    assert_eq!(network.layers[0].neurons.len(), 2);
    assert_eq!(network.layers[1].neurons.len(), 1);
    assert_eq!(f32::from_bits(network.layers[0].neurons[0].bias), 0.1);
    assert_eq!(
        f32::from_bits(network.layers[0].neurons[1].weights[1]),
        -0.6
    );

    let back = network.to_chromosome();
    assert_eq!(back.genes, genes);
}
