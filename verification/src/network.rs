//! The feed-forward network: an ordered sequence of layers, each an ordered
//! sequence of neurons; a neuron is one bias and one weight per input. A
//! layer turns its input vector into one output per neuron,
//! max(0, bias + dot(input, weights)), with the rectified linear activation
//! applied uniformly, the final layer included. A network is built either by
//! drawing every bias and weight uniformly from [-1, 1], or by decoding a
//! flat chromosome; decoding and flattening are exact inverses for a fixed
//! topology.

use vstd::prelude::*;
use vstd::arithmetic::mul::lemma_mul_inequality;
use vstd::arithmetic::mul::lemma_mul_nonnegative;
use crate::bits;
use crate::chromosome::Chromosome;
use crate::rng;

verus! {

/// One entry of a topology: the neuron count of its layer (for the first
/// entry, the network's input count).
pub struct LayerTopology {
    pub neurons: usize,
}

pub struct Neuron {
    pub bias: u32,
    pub weights: Vec<u32>,
}

pub struct Layer {
    pub neurons: Vec<Neuron>,
}

pub struct Network {
    pub layers: Vec<Layer>,
}

/// Running single-precision dot product of two sequences of equal length,
/// folded left to right starting from +0.0, exactly as a product-sum
/// iterator folds.
pub open spec fn dot_bits(inputs: Seq<u32>, weights: Seq<u32>) -> u32
    recommends
        inputs.len() == weights.len(),
    decreases weights.len(),
{
    if weights.len() == 0 {
        bits::POS_ZERO
    } else {
        bits::add_bits(
            dot_bits(inputs.drop_last(), weights.drop_last()),
            bits::mul_bits(inputs.last(), weights.last()),
        )
    }
}

/// Every step of the running dot product stays on its operation's
/// deterministic domain.
pub open spec fn dot_deterministic(inputs: Seq<u32>, weights: Seq<u32>) -> bool
    recommends
        inputs.len() == weights.len(),
    decreases weights.len(),
{
    if weights.len() == 0 {
        true
    } else {
        dot_deterministic(inputs.drop_last(), weights.drop_last()) && bits::mul_deterministic(
            inputs.last(),
            weights.last(),
        ) && bits::add_deterministic(
            dot_bits(inputs.drop_last(), weights.drop_last()),
            bits::mul_bits(inputs.last(), weights.last()),
        )
    }
}

impl Neuron {
    /// The neuron expects `n_in` inputs.
    pub open spec fn wf(&self, n_in: nat) -> bool {
        self.weights@.len() == n_in
    }

    /// The neuron's genes in flattening order: the bias, then the weights.
    pub open spec fn genes(&self) -> Seq<u32> {
        seq![self.bias] + self.weights@
    }

    /// Pattern of the neuron's response: the rectified linear activation of
    /// the bias plus the input-weight dot product; meaningful where
    /// `out_deterministic` holds.
    pub open spec fn out_spec(&self, inputs: Seq<u32>) -> u32 {
        bits::max_bits(bits::add_bits(self.bias, dot_bits(inputs, self.weights@)), bits::POS_ZERO)
    }

    /// Every arithmetic step of the neuron's response stays on its
    /// operation's deterministic domain, so the response is a function of
    /// the bias, weight and input patterns.
    pub open spec fn out_deterministic(&self, inputs: Seq<u32>) -> bool {
        &&& dot_deterministic(inputs, self.weights@)
        &&& bits::add_deterministic(self.bias, dot_bits(inputs, self.weights@))
        &&& bits::max_deterministic(
            bits::add_bits(self.bias, dot_bits(inputs, self.weights@)),
            bits::POS_ZERO,
        )
    }

    /// Every bias and weight lies in [-1, 1].
    pub open spec fn in_symmetric_range(&self) -> bool {
        &&& bits::is_symmetric_unit(self.bias)
        &&& forall|i: int|
            0 <= i < self.weights@.len() ==> bits::is_symmetric_unit(#[trigger] self.weights@[i])
    }

    /// Forward propagation of one neuron. The rectified output is never
    /// negative and never a NaN; on the deterministic domain it is exactly
    /// the response `out_spec`.
    pub fn propagate(&self, inputs: &Vec<u32>) -> (r: u32)
        requires
            inputs@.len() == self.weights@.len(),
        ensures
            self.out_deterministic(inputs@) ==> r == self.out_spec(inputs@),
            bits::is_weight(r),
    {
        let n = self.weights.len();
        let mut acc: u32 = bits::POS_ZERO;
        for i in 0..n
            invariant
                n == self.weights@.len() == inputs@.len(),
                dot_deterministic(inputs@.take(i as int), self.weights@.take(i as int)) ==> acc
                    == dot_bits(inputs@.take(i as int), self.weights@.take(i as int)),
        {
            proof {
                assert(inputs@.take(i + 1).drop_last() =~= inputs@.take(i as int));
                assert(self.weights@.take(i + 1).drop_last() =~= self.weights@.take(i as int));
            }
            acc = bits::add_single(acc, bits::mul_single(inputs[i], self.weights[i]));
        }
        proof {
            assert(inputs@.take(n as int) =~= inputs@);
            assert(self.weights@.take(n as int) =~= self.weights@);
        }
        bits::max_single(bits::add_single(self.bias, acc), bits::POS_ZERO)
    }

    /// A fresh neuron for `input_size` inputs: the bias is drawn first, then
    /// one weight per input, each uniform in [-1, 1].
    pub fn random(rng: &mut rand_chacha::ChaCha8Rng, input_size: usize) -> (r: Self)
        ensures
            r.wf(input_size as nat),
            r.in_symmetric_range(),
    {
        let bias = rng::symmetric_unit_draw(rng, bits::NEG_ONE, bits::ONE);
        let mut weights: Vec<u32> = Vec::new();
        for i in 0..input_size
            invariant
                weights@.len() == i,
                forall|j: int| 0 <= j < i ==> bits::is_symmetric_unit(#[trigger] weights@[j]),
        {
            weights.push(rng::symmetric_unit_draw(rng, bits::NEG_ONE, bits::ONE));
        }
        Neuron { bias, weights }
    }
}

/// Flattened genes of a sequence of neurons, in order.
pub open spec fn neurons_genes(neurons: Seq<Neuron>) -> Seq<u32>
    decreases neurons.len(),
{
    if neurons.len() == 0 {
        Seq::empty()
    } else {
        neurons_genes(neurons.drop_last()) + neurons.last().genes()
    }
}

impl Layer {
    /// Every neuron of the layer expects `n_in` inputs.
    pub open spec fn wf(&self, n_in: nat) -> bool {
        forall|k: int| 0 <= k < self.neurons@.len() ==> (#[trigger] self.neurons@[k]).wf(n_in)
    }

    /// The layer's genes: its neurons' genes, in order.
    pub open spec fn genes(&self) -> Seq<u32> {
        neurons_genes(self.neurons@)
    }

    /// The layer's response: one output per neuron, in order; meaningful
    /// where `out_deterministic` holds.
    pub open spec fn out_spec(&self, inputs: Seq<u32>) -> Seq<u32> {
        Seq::new(self.neurons@.len(), |k: int| self.neurons@[k].out_spec(inputs))
    }

    /// Every neuron's response to these inputs is deterministic.
    pub open spec fn out_deterministic(&self, inputs: Seq<u32>) -> bool {
        forall|k: int|
            0 <= k < self.neurons@.len() ==> (#[trigger] self.neurons@[k]).out_deterministic(
                inputs,
            )
    }

    /// Every neuron's biases and weights lie in [-1, 1].
    pub open spec fn in_symmetric_range(&self) -> bool {
        forall|k: int|
            0 <= k < self.neurons@.len() ==> (#[trigger] self.neurons@[k]).in_symmetric_range()
    }

    /// Forward propagation of one layer: one rectified output per neuron,
    /// never negative and never a NaN; where every neuron's arithmetic is
    /// deterministic the whole output vector is exactly the layer's
    /// response.
    pub fn propagate(&self, inputs: &Vec<u32>) -> (r: Vec<u32>)
        requires
            self.wf(inputs@.len()),
        ensures
            r@.len() == self.neurons@.len(),
            forall|m: int| 0 <= m < r@.len() ==> bits::is_weight(#[trigger] r@[m]),
            self.out_deterministic(inputs@) ==> r@ == self.out_spec(inputs@),
    {
        let n = self.neurons.len();
        let mut out: Vec<u32> = Vec::new();
        for k in 0..n
            invariant
                n == self.neurons@.len(),
                self.wf(inputs@.len()),
                out@.len() == k,
                forall|m: int| 0 <= m < k ==> bits::is_weight(#[trigger] out@[m]),
                forall|m: int|
                    0 <= m < k && (#[trigger] self.neurons@[m]).out_deterministic(inputs@)
                        ==> out@[m] == self.neurons@[m].out_spec(inputs@),
        {
            out.push(self.neurons[k].propagate(inputs));
        }
        proof {
            if self.out_deterministic(inputs@) {
                assert(out@ =~= self.out_spec(inputs@));
            }
        }
        out
    }

    /// A fresh layer of `output_size` neurons for `input_size` inputs, its
    /// neurons drawn in order.
    pub fn random(rng: &mut rand_chacha::ChaCha8Rng, input_size: usize, output_size: usize) -> (r:
        Self)
        ensures
            r.wf(input_size as nat),
            r.neurons@.len() == output_size,
            r.in_symmetric_range(),
    {
        let mut neurons: Vec<Neuron> = Vec::new();
        for k in 0..output_size
            invariant
                neurons@.len() == k,
                forall|m: int| 0 <= m < k ==> (#[trigger] neurons@[m]).wf(input_size as nat),
                forall|m: int| 0 <= m < k ==> (#[trigger] neurons@[m]).in_symmetric_range(),
        {
            neurons.push(Neuron::random(rng, input_size));
        }
        Layer { neurons }
    }
}

/// Flattened genes of a sequence of layers, in order.
pub open spec fn layers_genes(layers: Seq<Layer>) -> Seq<u32>
    decreases layers.len(),
{
    if layers.len() == 0 {
        Seq::empty()
    } else {
        layers_genes(layers.drop_last()) + layers.last().genes()
    }
}

/// The layers chain: the first expects `n_in` inputs, and each further layer
/// expects one input per neuron of the layer before it.
pub open spec fn chain_wf(layers: Seq<Layer>, n_in: nat) -> bool {
    forall|k: int|
        0 <= k < layers.len() ==> (#[trigger] layers[k]).wf(
            if k == 0 {
                n_in
            } else {
                layers[k - 1].neurons@.len()
            },
        )
}

/// The network's response: the input vector piped through the layers in
/// order; meaningful where `chain_deterministic` holds.
pub open spec fn chain_out(layers: Seq<Layer>, inputs: Seq<u32>) -> Seq<u32>
    decreases layers.len(),
{
    if layers.len() == 0 {
        inputs
    } else {
        chain_out(layers.drop_first(), layers[0].out_spec(inputs))
    }
}

/// Every layer's response along the pipe is deterministic.
pub open spec fn chain_deterministic(layers: Seq<Layer>, inputs: Seq<u32>) -> bool
    decreases layers.len(),
{
    if layers.len() == 0 {
        true
    } else {
        layers[0].out_deterministic(inputs) && chain_deterministic(
            layers.drop_first(),
            layers[0].out_spec(inputs),
        )
    }
}

impl Network {
    /// The network accepts `n_in` inputs.
    pub open spec fn wf(&self, n_in: nat) -> bool {
        chain_wf(self.layers@, n_in)
    }

    /// The network's genes: its layers' genes, in order.
    pub open spec fn genes(&self) -> Seq<u32> {
        layers_genes(self.layers@)
    }

    /// A fresh network for the given topology, which must list at least an
    /// input layer and one further layer: the layers are built in order,
    /// every bias and weight drawn uniformly from [-1, 1].
    pub fn random(rng: &mut rand_chacha::ChaCha8Rng, layers: &[LayerTopology]) -> (r: Self)
        requires
            layers@.len() >= 2,
        ensures
            r.wf(layers@[0].neurons as nat),
            r.layers@.len() == layers@.len() - 1,
            forall|k: int|
                0 <= k < r.layers@.len() ==> (#[trigger] r.layers@[k]).neurons@.len() == layers@[k
                    + 1].neurons,
            forall|k: int|
                0 <= k < r.layers@.len() ==> (#[trigger] r.layers@[k]).in_symmetric_range(),
    {
        let n = layers.len();
        let mut built: Vec<Layer> = Vec::new();
        for k in 1..n
            invariant
                n == layers@.len(),
                built@.len() == k - 1,
                forall|m: int|
                    0 <= m < built@.len() ==> (#[trigger] built@[m]).neurons@.len() == layers@[m
                        + 1].neurons,
                forall|m: int|
                    0 <= m < built@.len() ==> (#[trigger] built@[m]).in_symmetric_range(),
                chain_wf(built@, layers@[0].neurons as nat),
        {
            let input_size = layers[k - 1].neurons;
            let output_size = layers[k].neurons;
            built.push(Layer::random(rng, input_size, output_size));
        }
        Network { layers: built }
    }

    /// Forward propagation: feeds the input vector to the first layer and
    /// each layer's output to the next; the last layer's output is the
    /// network's, one rectified value per neuron of that layer, never
    /// negative and never a NaN. Where every layer's arithmetic along the
    /// pipe is deterministic the result is exactly the network's response.
    pub fn propagate(&self, inputs: Vec<u32>) -> (r: Vec<u32>)
        requires
            self.wf(inputs@.len()),
        ensures
            chain_deterministic(self.layers@, inputs@) ==> r@ == chain_out(
                self.layers@,
                inputs@,
            ),
            self.layers@.len() == 0 ==> r@ == inputs@,
            self.layers@.len() > 0 ==> r@.len() == self.layers@.last().neurons@.len() && (forall|
                m: int,
            |
                0 <= m < r@.len() ==> bits::is_weight(#[trigger] r@[m])),
    {
        let n = self.layers.len();
        let mut acc = inputs;
        let ghost start = acc@;
        proof {
            assert(self.layers@.skip(0) =~= self.layers@);
        }
        for k in 0..n
            invariant
                n == self.layers@.len(),
                chain_wf(self.layers@.skip(k as int), acc@.len()),
                k == 0 ==> acc@ == start,
                k > 0 ==> acc@.len() == self.layers@[k - 1].neurons@.len() && (forall|m: int|
                    0 <= m < acc@.len() ==> bits::is_weight(#[trigger] acc@[m])),
                chain_deterministic(self.layers@, start) ==> chain_deterministic(
                    self.layers@.skip(k as int),
                    acc@,
                ) && chain_out(self.layers@.skip(k as int), acc@) == chain_out(
                    self.layers@,
                    start,
                ),
        {
            let ghost rest = self.layers@.skip(k as int);
            let ghost before = acc@;
            proof {
                assert(rest[0] == self.layers@[k as int]);
                assert(rest[0].wf(acc@.len()));
            }
            acc = self.layers[k].propagate(&acc);
            proof {
                assert(rest.drop_first() =~= self.layers@.skip(k + 1));
                lemma_chain_wf_step(rest, before.len());
                if chain_deterministic(self.layers@, start) {
                    assert(rest[0].out_deterministic(before));
                    assert(acc@ =~= rest[0].out_spec(before));
                    assert(chain_out(rest, before) == chain_out(
                        rest.drop_first(),
                        rest[0].out_spec(before),
                    ));
                }
            }
        }
        proof {
            assert(self.layers@.skip(n as int) =~= Seq::<Layer>::empty());
        }
        acc
    }
}

/// The gene count a topology asks for: over its adjacent pairs, one bias and
/// one weight per input for each neuron of the later entry.
pub open spec fn genes_needed(ts: Seq<LayerTopology>) -> int
    decreases ts.len(),
{
    if ts.len() <= 1 {
        0
    } else {
        ts[1].neurons * (ts[0].neurons + 1) + genes_needed(ts.drop_first())
    }
}

proof fn lemma_genes_needed_nonneg(ts: Seq<LayerTopology>)
    ensures
        genes_needed(ts) >= 0,
    decreases ts.len(),
{
    if ts.len() > 1 {
        lemma_mul_nonnegative(ts[1].neurons as int, ts[0].neurons + 1);
        lemma_genes_needed_nonneg(ts.drop_first());
    }
}

/// Reads one neuron's genes from a chromosome, starting at `cursor`: the
/// bias first, then one weight per input. Returns the neuron and the cursor
/// just past what was read.
fn read_neuron(chromosome: &Chromosome, cursor: usize, input_size: usize) -> (r: (Neuron, usize))
    requires
        cursor + input_size + 1 <= chromosome@.len(),
    ensures
        r.0.wf(input_size as nat),
        r.1 == cursor + input_size + 1,
        r.0.genes() == chromosome@.subrange(cursor as int, r.1 as int),
{
    let len = chromosome.len();
    let bias = chromosome.get(cursor);
    let mut cur: usize = cursor + 1;
    let mut ws: Vec<u32> = Vec::new();
    for w in 0..input_size
        invariant
            len == chromosome@.len(),
            cursor + input_size + 1 <= chromosome@.len(),
            cur == cursor + 1 + w,
            ws@.len() == w,
            ws@ == chromosome@.subrange(cursor as int + 1, cur as int),
            bias == chromosome@[cursor as int],
    {
        ws.push(chromosome.get(cur));
        cur = cur + 1;
        proof {
            assert(ws@ =~= chromosome@.subrange(cursor as int + 1, cur as int));
        }
    }
    let neuron = Neuron { bias, weights: ws };
    proof {
        assert(neuron.genes() =~= chromosome@.subrange(cursor as int, cur as int));
    }
    (neuron, cur)
}

/// Reads one layer's genes from a chromosome, starting at `cursor`: its
/// neurons in order, each a bias and `input_size` weights. Returns the layer
/// and the cursor just past what was read.
fn read_layer(chromosome: &Chromosome, cursor: usize, input_size: usize, output_size: usize) -> (r:
    (Layer, usize))
    requires
        cursor + output_size * (input_size + 1) <= chromosome@.len(),
    ensures
        r.0.wf(input_size as nat),
        r.0.neurons@.len() == output_size,
        r.1 == cursor + output_size * (input_size + 1),
        r.0.genes() == chromosome@.subrange(cursor as int, r.1 as int),
{
    let len = chromosome.len();
    let mut cur: usize = cursor;
    let mut neurons: Vec<Neuron> = Vec::new();
    for nidx in 0..output_size
        invariant
            len == chromosome@.len(),
            cursor + output_size * (input_size + 1) <= chromosome@.len(),
            neurons@.len() == nidx,
            forall|m: int|
                0 <= m < neurons@.len() ==> (#[trigger] neurons@[m]).wf(input_size as nat),
            cur == cursor + nidx * (input_size + 1),
            neurons_genes(neurons@) == chromosome@.subrange(cursor as int, cur as int),
    {
        proof {
            assert((nidx + 1) * (input_size + 1) == nidx * (input_size + 1) + (input_size + 1))
                by (nonlinear_arith);
            lemma_mul_inequality(nidx + 1, output_size as int, input_size + 1);
        }
        let (neuron, next) = read_neuron(chromosome, cur, input_size);
        proof {
            assert(neurons@.push(neuron).drop_last() =~= neurons@);
            assert(chromosome@.subrange(cursor as int, cur as int) + chromosome@.subrange(
                cur as int,
                next as int,
            ) =~= chromosome@.subrange(cursor as int, next as int));
        }
        neurons.push(neuron);
        cur = next;
    }
    (Layer { neurons }, cur)
}

impl Network {
    /// Decodes a flat chromosome into a network of the given topology,
    /// consuming genes in the fixed flattening order: the bias and then the
    /// weights of neuron 1 of layer 1, then neuron 2, and so on, then layer
    /// 2. The chromosome's length must be exactly what the topology asks
    /// for; the decoded network flattens back to the chromosome.
    #[verifier::rlimit(60)]
    pub fn from_chromosome(layers: &[LayerTopology], chromosome: &Chromosome) -> (r: Network)
        requires
            layers@.len() >= 2,
            chromosome@.len() == genes_needed(layers@),
        ensures
            r.wf(layers@[0].neurons as nat),
            r.layers@.len() == layers@.len() - 1,
            forall|k: int|
                0 <= k < r.layers@.len() ==> (#[trigger] r.layers@[k]).neurons@.len() == layers@[k
                    + 1].neurons,
            r.genes() == chromosome@,
    {
        let t = layers.len();
        let len = chromosome.len();
        let mut cursor: usize = 0;
        let mut built: Vec<Layer> = Vec::new();
        proof {
            assert(layers@.skip(0) =~= layers@);
            assert(chromosome@.take(0) =~= layers_genes(built@));
        }
        for k in 1..t
            invariant
                t == layers@.len(),
                len == chromosome@.len() == genes_needed(layers@),
                built@.len() == k - 1,
                forall|m: int|
                    0 <= m < built@.len() ==> (#[trigger] built@[m]).neurons@.len() == layers@[m
                        + 1].neurons,
                chain_wf(built@, layers@[0].neurons as nat),
                cursor <= len,
                layers_genes(built@) == chromosome@.take(cursor as int),
                len - cursor == genes_needed(layers@.skip(k - 1)),
        {
            let input_size = layers[k - 1].neurons;
            let output_size = layers[k].neurons;
            let ghost rest = layers@.skip(k - 1);
            proof {
                assert(rest.drop_first() =~= layers@.skip(k as int));
                assert(rest[0] == layers@[k - 1]);
                assert(rest[1] == layers@[k as int]);
                lemma_genes_needed_nonneg(layers@.skip(k as int));
                assert(cursor + output_size * (input_size + 1) <= len);
            }
            let (layer, next) = read_layer(chromosome, cursor, input_size, output_size);
            proof {
                assert(chromosome@.take(cursor as int) + chromosome@.subrange(
                    cursor as int,
                    next as int,
                ) =~= chromosome@.take(next as int));
                assert(built@.push(layer).drop_last() =~= built@);
                let ghost grown = built@.push(layer);
                assert forall|m: int|
                    0 <= m < grown.len() implies (#[trigger] grown[m]).wf(
                    if m == 0 {
                        layers@[0].neurons as nat
                    } else {
                        grown[m - 1].neurons@.len()
                    },
                ) by {
                    if m < grown.len() - 1 {
                        assert(grown[m] == built@[m]);
                    }
                }
            }
            built.push(layer);
            cursor = next;
        }
        proof {
            assert(layers@.skip(t - 1).len() == 1);
            assert(chromosome@.take(len as int) =~= chromosome@);
        }
        Network { layers: built }
    }

    /// Flattens the network back into a chromosome, in the same fixed order
    /// that decoding consumes: for each layer in order, for each neuron in
    /// order, the bias and then the weights.
    pub fn to_chromosome(&self) -> (r: Chromosome)
        ensures
            r@ == self.genes(),
    {
        let mut genes: Vec<u32> = Vec::new();
        let t = self.layers.len();
        for k in 0..t
            invariant
                t == self.layers@.len(),
                genes@ == layers_genes(self.layers@.take(k as int)),
        {
            let layer = &self.layers[k];
            let n = layer.neurons.len();
            for nidx in 0..n
                invariant
                    t == self.layers@.len(),
                    k < t,
                    layer == &self.layers@[k as int],
                    n == layer.neurons@.len(),
                    genes@ == layers_genes(self.layers@.take(k as int)) + neurons_genes(
                        layer.neurons@.take(nidx as int),
                    ),
            {
                let neuron = &layer.neurons[nidx];
                genes.push(neuron.bias);
                let m = neuron.weights.len();
                let ghost at_bias = genes@;
                for w in 0..m
                    invariant
                        m == neuron.weights@.len(),
                        genes@ == at_bias + neuron.weights@.take(w as int),
                {
                    genes.push(neuron.weights[w]);
                    proof {
                        assert(genes@ =~= at_bias + neuron.weights@.take(w + 1));
                    }
                }
                proof {
                    assert(neuron.weights@.take(m as int) =~= neuron.weights@);
                    assert(layer.neurons@.take(nidx + 1).drop_last() =~= layer.neurons@.take(
                        nidx as int,
                    ));
                    assert(genes@ =~= layers_genes(self.layers@.take(k as int)) + neurons_genes(
                        layer.neurons@.take(nidx + 1),
                    ));
                }
            }
            proof {
                assert(layer.neurons@.take(n as int) =~= layer.neurons@);
                assert(self.layers@.take(k + 1).drop_last() =~= self.layers@.take(k as int));
                assert(genes@ =~= layers_genes(self.layers@.take(k + 1)));
            }
        }
        proof {
            assert(self.layers@.take(t as int) =~= self.layers@);
        }
        Chromosome::from_genes(genes)
    }
}

/// A chain that fits a given input width, stripped of its first layer, fits
/// that layer's output width.
proof fn lemma_chain_wf_step(layers: Seq<Layer>, n_in: nat)
    requires
        layers.len() > 0,
        chain_wf(layers, n_in),
    ensures
        chain_wf(layers.drop_first(), layers[0].neurons@.len()),
{
    let rest = layers.drop_first();
    assert forall|k: int|
        0 <= k < rest.len() implies (#[trigger] rest[k]).wf(
        if k == 0 {
            layers[0].neurons@.len()
        } else {
            rest[k - 1].neurons@.len()
        },
    ) by {
        assert(rest[k] == layers[k + 1]);
        if k > 0 {
            assert(rest[k - 1] == layers[k]);
        }
    }
}

/// Two concatenations of equal length parts are equal part by part.
proof fn lemma_concat_cancel(x1: Seq<u32>, y1: Seq<u32>, x2: Seq<u32>, y2: Seq<u32>)
    requires
        x1 + y1 == x2 + y2,
        y1.len() == y2.len(),
    ensures
        x1 == x2,
        y1 == y2,
{
    assert(x1.len() == x2.len()) by {
        assert((x1 + y1).len() == x1.len() + y1.len());
        assert((x2 + y2).len() == x2.len() + y2.len());
    }
    assert(x1 =~= x2) by {
        assert forall|i: int| 0 <= i < x1.len() implies x1[i] == x2[i] by {
            assert((x1 + y1)[i] == x1[i]);
            assert((x2 + y2)[i] == x2[i]);
        }
    }
    assert(y1 =~= y2) by {
        assert forall|i: int| 0 <= i < y1.len() implies y1[i] == y2[i] by {
            assert((x1 + y1)[x1.len() + i] == y1[i]);
            assert((x2 + y2)[x2.len() + i] == y2[i]);
        }
    }
}

/// Neuron sequences of one shape flatten to gene sequences of one length.
proof fn lemma_neurons_genes_len(a: Seq<Neuron>, b: Seq<Neuron>)
    requires
        a.len() == b.len(),
        forall|n: int|
            0 <= n < a.len() ==> #[trigger] a[n].weights@.len() == b[n].weights@.len(),
    ensures
        neurons_genes(a).len() == neurons_genes(b).len(),
    decreases a.len(),
{
    if a.len() > 0 {
        lemma_neurons_genes_len(a.drop_last(), b.drop_last());
    }
}

/// For one shape, a flattened gene sequence determines its neurons: equal
/// genes give equal biases and equal weights, neuron by neuron.
proof fn lemma_genes_determine_neurons(a: Seq<Neuron>, b: Seq<Neuron>)
    requires
        a.len() == b.len(),
        forall|n: int|
            0 <= n < a.len() ==> #[trigger] a[n].weights@.len() == b[n].weights@.len(),
        neurons_genes(a) == neurons_genes(b),
    ensures
        forall|n: int|
            0 <= n < a.len() ==> #[trigger] a[n].bias == b[n].bias && a[n].weights@
                == b[n].weights@,
    decreases a.len(),
{
    if a.len() > 0 {
        let ad = a.drop_last();
        let bd = b.drop_last();
        assert(a.last().genes().len() == b.last().genes().len());
        lemma_concat_cancel(neurons_genes(ad), a.last().genes(), neurons_genes(bd), b.last().genes());
        assert(a.last().bias == b.last().bias) by {
            assert(a.last().genes()[0] == a.last().bias);
            assert(b.last().genes()[0] == b.last().bias);
        }
        assert(a.last().weights@ =~= b.last().weights@) by {
            assert forall|i: int| 0 <= i < a.last().weights@.len() implies a.last().weights@[i]
                == b.last().weights@[i] by {
                assert(a.last().genes()[1 + i] == a.last().weights@[i]);
                assert(b.last().genes()[1 + i] == b.last().weights@[i]);
            }
        }
        lemma_genes_determine_neurons(ad, bd);
        assert forall|n: int| 0 <= n < a.len() implies #[trigger] a[n].bias == b[n].bias
            && a[n].weights@ == b[n].weights@ by {
            if n < a.len() - 1 {
                assert(ad[n] == a[n]);
                assert(bd[n] == b[n]);
            } else {
                assert(a[n] == a.last());
                assert(b[n] == b.last());
            }
        }
    }
}

/// For one shape, flattening loses nothing: two layer sequences with the
/// same neuron counts and the same weight count per neuron, whose flattened
/// genes agree, agree in every bias and every weight. Together with the
/// contracts of `from_chromosome` and `to_chromosome`, decoding a chromosome
/// and flattening a network are exact inverses for a fixed topology.
pub proof fn lemma_genes_determine_network(a: Seq<Layer>, b: Seq<Layer>)
    requires
        a.len() == b.len(),
        forall|k: int|
            0 <= k < a.len() ==> #[trigger] a[k].neurons@.len() == b[k].neurons@.len(),
        forall|k: int, n: int|
            0 <= k < a.len() && 0 <= n < a[k].neurons@.len() ==> #[trigger] a[k].neurons@[n].weights@.len()
                == b[k].neurons@[n].weights@.len(),
        layers_genes(a) == layers_genes(b),
    ensures
        forall|k: int, n: int|
            0 <= k < a.len() && 0 <= n < a[k].neurons@.len() ==> #[trigger] a[k].neurons@[n].bias
                == b[k].neurons@[n].bias && a[k].neurons@[n].weights@ == b[k].neurons@[n].weights@,
    decreases a.len(),
{
    if a.len() > 0 {
        let ad = a.drop_last();
        let bd = b.drop_last();
        lemma_neurons_genes_len(a.last().neurons@, b.last().neurons@);
        lemma_concat_cancel(layers_genes(ad), a.last().genes(), layers_genes(bd), b.last().genes());
        lemma_genes_determine_neurons(a.last().neurons@, b.last().neurons@);
        lemma_genes_determine_network(ad, bd);
        assert forall|k: int, n: int|
            0 <= k < a.len() && 0 <= n < a[k].neurons@.len() implies #[trigger] a[k].neurons@[n].bias
            == b[k].neurons@[n].bias && a[k].neurons@[n].weights@ == b[k].neurons@[n].weights@ by {
            if k < a.len() - 1 {
                assert(ad[k] == a[k]);
                assert(bd[k] == b[k]);
                assert(ad[k].neurons@[n].bias == bd[k].neurons@[n].bias && ad[k].neurons@[n].weights@
                    == bd[k].neurons@[n].weights@);
            } else {
                assert(a[k] == a.last());
                assert(b[k] == b.last());
                assert(a.last().neurons@[n].bias == b.last().neurons@[n].bias
                    && a.last().neurons@[n].weights@ == b.last().neurons@[n].weights@);
            }
        }
    }
}

} // verus!
