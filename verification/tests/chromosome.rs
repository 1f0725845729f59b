use evolver::Chromosome;

fn bits_of(values: &[f32]) -> Vec<u32> {
    values.iter().map(|v| v.to_bits()).collect()
}

fn chromosome() -> Chromosome {
    Chromosome::from_genes(bits_of(&[3.0, 1.0, 2.0]))
}

#[test]
fn chromosome_into_iter_test() {
    let chromosome = Chromosome::from_genes(bits_of(&[3.0, 1.0, 2.0]));
    let genes: Vec<u32> = chromosome.into_genes();

    assert_eq!(genes.len(), 3);
    assert_eq!(f32::from_bits(genes[0]), 3.0);
}

#[test]
fn chromosome_from_iterator_test() {
    let chromosome = Chromosome::from_genes(bits_of(&[3.0, 1.0, 2.0]));

    assert_eq!(f32::from_bits(chromosome.get(0)), 3.0);
    assert_eq!(f32::from_bits(chromosome.get(1)), 1.0);
}

#[test]
fn chromosome_len_test() {
    let chromosome = chromosome();
    assert_eq!(chromosome.len(), 3);
    assert_eq!(f32::from_bits(chromosome.get(0)), 3.0);
}

#[test]
fn chromosome_iter_test() {
    let chromosome = chromosome();

    let genes = chromosome.genes.clone();

    assert_eq!(genes.len(), 3);
    assert_eq!(f32::from_bits(genes[0]), 3.0);
    assert_eq!(f32::from_bits(genes[1]), 1.0);
    assert_eq!(f32::from_bits(genes[2]), 2.0);
}

#[test]
fn chromosome_iter_mut_test() {
    let mut chromosome = chromosome();

    for i in 0..chromosome.len() {
        let gene = f32::from_bits(chromosome.get(i));
        chromosome.set(i, (gene * 10.0).to_bits());
    }

    assert_eq!(chromosome.len(), 3);
    assert_eq!(f32::from_bits(chromosome.get(0)), 30.0);
    assert_eq!(f32::from_bits(chromosome.get(1)), 10.0);
}

#[test]
fn chromosome_round_trip_test() {
    let source = bits_of(&[0.25, -1.5, 3.75, 0.0, -0.0, 123.456]);
    let chromosome = Chromosome::from_genes(source.clone());
    assert_eq!(chromosome.len(), source.len());
    let back = chromosome.into_genes();
    assert_eq!(back, source);
}
