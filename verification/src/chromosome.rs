//! The chromosome: an ordered, fixed-length container of genes. Each gene is
//! the 32-bit pattern of a single-precision value. Construction from a
//! sequence of genes and decomposition back are exact inverses, and no
//! operation changes the length after construction.

use vstd::prelude::*;

verus! {

#[derive(Clone, Debug, PartialEq)]
pub struct Chromosome {
    pub genes: Vec<u32>,
}

impl View for Chromosome {
    type V = Seq<u32>;

    open spec fn view(&self) -> Seq<u32> {
        self.genes@
    }
}

impl Chromosome {
    /// Builds a chromosome from a sequence of gene patterns, in order,
    /// without deduplication.
    pub fn from_genes(genes: Vec<u32>) -> (r: Self)
        ensures
            r@ == genes@,
    {
        Chromosome { genes }
    }

    /// Decomposes the chromosome back into its owned sequence of genes.
    pub fn into_genes(self) -> (r: Vec<u32>)
        ensures
            r@ == self@,
    {
        self.genes
    }

    pub fn len(&self) -> (r: usize)
        ensures
            r == self@.len(),
    {
        self.genes.len()
    }

    /// Indexed read of one gene pattern.
    pub fn get(&self, index: usize) -> (r: u32)
        requires
            index < self@.len(),
        ensures
            r == self@[index as int],
    {
        self.genes[index]
    }

    /// Indexed write of one gene pattern; the length never changes.
    pub fn set(&mut self, index: usize, gene: u32)
        requires
            index < old(self)@.len(),
        ensures
            final(self)@ == old(self)@.update(index as int, gene),
    {
        self.genes.set(index, gene);
    }
}

} // verus!
