//! An evolutionary optimizer: populations of individuals carry chromosomes of
//! real-valued genes, and each generation is bred by fitness-proportionate
//! selection, uniform crossover and Gaussian mutation. A small feed-forward
//! network decodes a chromosome into weights and biases and computes forward
//! propagation.
//!
//! Genes are IEEE 754 single-precision values, carried everywhere as their
//! 32-bit patterns. All data movement is verified; the handful of
//! floating-point operations and random draws go through trusted wrappers in
//! `bits` and `rng`.

pub mod bits;
pub mod rng;
pub mod chromosome;
pub mod crossover;
pub mod mutation;
pub mod selection;
pub mod algorithm;
pub mod network;

pub use algorithm::population_weights;
pub use algorithm::GeneticAlgorithm;
pub use algorithm::Individual;
pub use algorithm::TestIndividual;
pub use chromosome::Chromosome;
pub use crossover::CrossoverMethod;
pub use crossover::UniformCrossover;
pub use mutation::GaussianMutation;
pub use mutation::GeneDraw;
pub use mutation::MutationMethod;
pub use network::Layer;
pub use network::LayerTopology;
pub use network::Network;
pub use network::Neuron;
pub use selection::RouletteWheelSelection;
pub use selection::SelectError;
pub use selection::SelectionMethod;
