//! The feed-forward network agent.
//!
//! A network is an ordered sequence of layers, each a weight matrix
//! and a bias vector with matching widths.  The forward pass feeds the
//! feature vector through `W x + b` with a clamped rectifier between
//! layers and no activation after the last; the chosen action is the
//! first index of the greatest output.  A monotone normalization of
//! the outputs never changes that index, so the action convention is
//! stated directly over the final layer's outputs.
use vstd::prelude::*;

verus! {

use crate::agent::{Agent, PolicyError};
use crate::fixed::{RANGE_LIMIT, clamp, clamp_spec, fx_mul, fx_mul_spec};
use crate::mdp::MarkovDecisionProcess;
use crate::model_io::{
    ModelError, NamedTensor, TensorData, find_from, find_key, find_key_spec,
    lemma_slot_key_injective, slot_key, slot_key_seq,
};
use crate::mountaincar::{Ground, MountainAction, MountainCar};

/// Largest accepted layer width.
pub const WIDTH_LIMIT: usize = 256;

/// Largest accepted layer count.
pub const DEPTH_LIMIT: usize = 50;

/// The values of a vector, widened to mathematical integers.
pub open spec fn to_ints(s: Seq<i64>) -> Seq<int> {
    Seq::new(s.len(), |k: int| s[k] as int)
}

/// One network layer: a weight matrix of shape `[out, in]` and a bias
/// vector of length `out`.
#[derive(Clone, Debug)]
pub struct Layer {
    /// The weight matrix, row-major.
    pub weight: TensorData,
    /// The bias vector.
    pub bias: TensorData,
}

impl Layer {
    /// Number of outputs of the layer.
    pub open spec fn out_dim(&self) -> int {
        self.weight.dims@[0] as int
    }

    /// Number of inputs of the layer.
    pub open spec fn in_dim(&self) -> int {
        self.weight.dims@[1] as int
    }

    /// Well-formedness: bounded widths, matching shapes, and all
    /// values in the representable range.
    pub open spec fn wf(&self) -> bool {
        &&& self.weight.dims@.len() == 2
        &&& 1 <= self.out_dim() <= WIDTH_LIMIT
        &&& 1 <= self.in_dim() <= WIDTH_LIMIT
        &&& self.weight.is_matrix(self.out_dim(), self.in_dim())
        &&& self.bias.is_vector(self.out_dim())
    }
}

/// Fixed-point dot product of `n` weights starting at `off` with the
/// first `n` inputs.
pub open spec fn dot_at_spec(w: Seq<i64>, off: int, x: Seq<int>, n: nat) -> int
    decreases n,
{
    if n == 0 {
        0
    } else {
        dot_at_spec(w, off, x, (n - 1) as nat) + fx_mul_spec(w[off + n - 1] as int, x[n - 1])
    }
}

/// The clamped rectifier applied between layers: negative values
/// become zero and values above the representable range saturate.
pub open spec fn act_spec(v: int) -> int {
    clamp_spec(v, 0, RANGE_LIMIT as int)
}

/// Pre-activation output of neuron `r` of a layer on input `x`.
pub open spec fn layer_pre_spec(l: Layer, x: Seq<int>, r: int) -> int {
    dot_at_spec(l.weight.data@, r * l.in_dim(), x, l.in_dim() as nat) + l.bias.data@[r]
}

/// All outputs of a layer on input `x`, with or without the clamped
/// rectifier.
pub open spec fn layer_vals_spec(l: Layer, x: Seq<int>, use_act: bool) -> Seq<int> {
    Seq::new(
        l.out_dim() as nat,
        |r: int|
            if use_act {
                act_spec(layer_pre_spec(l, x, r))
            } else {
                layer_pre_spec(l, x, r)
            },
    )
}

/// The network's final outputs: each layer applied in order, with the
/// clamped rectifier after every layer but the last.
pub open spec fn net_out_spec(layers: Seq<Layer>, x: Seq<int>) -> Seq<int>
    decreases layers.len(),
{
    if layers.len() == 0 {
        x
    } else if layers.len() == 1 {
        layer_vals_spec(layers[0], x, false)
    } else {
        net_out_spec(layers.skip(1), layer_vals_spec(layers[0], x, true))
    }
}

/// Index of the first greatest entry.
pub open spec fn argmax_spec(s: Seq<int>) -> int
    decreases s.len(),
{
    if s.len() <= 1 {
        0
    } else {
        let r = argmax_spec(s.drop_last());
        if s[s.len() - 1] > s[r] {
            s.len() - 1
        } else {
            r
        }
    }
}

/// Fixed-point dot product of one weight row with the input vector.
fn dot_at(w: &Vec<i64>, off: usize, x: &Vec<i64>, n: usize) -> (s: i64)
    requires
        off + n <= w@.len(),
        n <= x@.len(),
        n <= WIDTH_LIMIT,
        forall|k: int| 0 <= k < w@.len() ==> -RANGE_LIMIT <= #[trigger] w@[k] <= RANGE_LIMIT,
        forall|k: int| 0 <= k < x@.len() ==> -RANGE_LIMIT <= #[trigger] x@[k] <= RANGE_LIMIT,
    ensures
        s == dot_at_spec(w@, off as int, to_ints(x@), n as nat),
        -(n * 1_000_000_000_000_000) <= s <= n * 1_000_000_000_000_000,
{
    let wl = w.len();
    let mut s: i64 = 0;
    let mut k: usize = 0;
    while k < n
        invariant
            k <= n,
            off + n <= w@.len(),
            w@.len() == wl,
            n <= x@.len(),
            n <= WIDTH_LIMIT,
            forall|j: int| 0 <= j < w@.len() ==> -RANGE_LIMIT <= #[trigger] w@[j] <= RANGE_LIMIT,
            forall|j: int| 0 <= j < x@.len() ==> -RANGE_LIMIT <= #[trigger] x@[j] <= RANGE_LIMIT,
            s == dot_at_spec(w@, off as int, to_ints(x@), k as nat),
            -(k * 1_000_000_000_000_000) <= s <= k * 1_000_000_000_000_000,
        decreases n - k,
    {
        proof {
            assert(-1_000_000_000_000_000_000 <= w@[off + k] as int * x@[k as int] as int
                <= 1_000_000_000_000_000_000) by (nonlinear_arith)
                requires
                    -RANGE_LIMIT <= w@[off + k] <= RANGE_LIMIT,
                    -RANGE_LIMIT <= x@[k as int] <= RANGE_LIMIT,
            ;
        }
        let term = fx_mul(w[off + k], x[k]);
        s = s + term;
        k = k + 1;
    }
    s
}

/// All outputs of one layer on input `x`, rectified between layers.
fn layer_forward(l: &Layer, x: &Vec<i64>, use_act: bool) -> (y: Vec<i64>)
    requires
        l.wf(),
        x@.len() == l.in_dim(),
        forall|k: int| 0 <= k < x@.len() ==> -RANGE_LIMIT <= #[trigger] x@[k] <= RANGE_LIMIT,
    ensures
        y@.len() == l.out_dim(),
        to_ints(y@) == layer_vals_spec(*l, to_ints(x@), use_act),
        use_act ==> forall|r: int| 0 <= r < y@.len() ==> 0 <= #[trigger] y@[r] <= RANGE_LIMIT,
{
    let rows = l.weight.dims[0];
    let cols = l.weight.dims[1];
    let mut y: Vec<i64> = Vec::new();
    let mut r: usize = 0;
    while r < rows
        invariant
            r <= rows,
            rows == l.out_dim(),
            cols == l.in_dim(),
            l.wf(),
            x@.len() == l.in_dim(),
            forall|k: int| 0 <= k < x@.len() ==> -RANGE_LIMIT <= #[trigger] x@[k] <= RANGE_LIMIT,
            y@.len() == r,
            forall|q: int|
                0 <= q < r ==> #[trigger] y@[q] as int == layer_vals_spec(
                    *l,
                    to_ints(x@),
                    use_act,
                )[q],
            use_act ==> forall|q: int| 0 <= q < y@.len() ==> 0 <= #[trigger] y@[q] <= RANGE_LIMIT,
        decreases rows - r,
    {
        proof {
            assert(0 <= r as int * cols as int && r as int * cols as int + cols as int == (
            r as int + 1) * cols as int && (r as int + 1) * cols as int <= rows as int
                * cols as int && rows as int * cols as int <= 65536) by (nonlinear_arith)
                requires
                    0 <= r < rows,
                    1 <= cols <= 256,
                    1 <= rows <= 256,
            ;
        }
        let off = r * cols;
        let s = dot_at(&l.weight.data, off, x, cols);
        let pre = s + l.bias.data[r];
        let v = if use_act {
            clamp(pre, 0, RANGE_LIMIT)
        } else {
            pre
        };
        y.push(v);
        r = r + 1;
    }
    proof {
        assert(to_ints(y@) =~= layer_vals_spec(*l, to_ints(x@), use_act));
    }
    y
}

/// Index of the first greatest entry of a nonempty vector.
pub fn argmax(v: &Vec<i64>) -> (i: usize)
    requires
        v@.len() >= 1,
    ensures
        i < v@.len(),
        i == argmax_spec(to_ints(v@)),
{
    let mut best: usize = 0;
    let mut j: usize = 1;
    while j < v.len()
        invariant
            1 <= j <= v@.len(),
            best < j,
            best == argmax_spec(to_ints(v@).take(j as int)),
        decreases v@.len() - j,
    {
        proof {
            assert(to_ints(v@).take(j as int + 1).drop_last() =~= to_ints(v@).take(j as int));
        }
        if v[j] > v[best] {
            best = j;
        }
        j = j + 1;
    }
    proof {
        assert(to_ints(v@).take(v@.len() as int) =~= to_ints(v@));
    }
    best
}

/// Build a zero vector of the given length.
fn zeros(n: usize) -> (v: Vec<i64>)
    ensures
        v@.len() == n,
        forall|k: int| 0 <= k < n ==> #[trigger] v@[k] == 0,
{
    let mut v: Vec<i64> = Vec::new();
    let mut j: usize = 0;
    while j < n
        invariant
            j <= n,
            v@.len() == j,
            forall|k: int| 0 <= k < j ==> #[trigger] v@[k] == 0,
        decreases n - j,
    {
        v.push(0);
        j = j + 1;
    }
    v
}

/// A zero-initialized layer of the given shape.
fn zero_layer(rows: usize, cols: usize) -> (l: Layer)
    requires
        1 <= rows <= WIDTH_LIMIT,
        1 <= cols <= WIDTH_LIMIT,
    ensures
        l.wf(),
        l.out_dim() == rows,
        l.in_dim() == cols,
        forall|k: int| 0 <= k < l.weight.data@.len() ==> #[trigger] l.weight.data@[k] == 0,
        forall|k: int| 0 <= k < l.bias.data@.len() ==> #[trigger] l.bias.data@[k] == 0,
{
    proof {
        assert(0 <= rows as int * cols as int <= 65536) by (nonlinear_arith)
            requires
                1 <= rows <= 256,
                1 <= cols <= 256,
        ;
    }
    let mut dims: Vec<usize> = Vec::new();
    dims.push(rows);
    dims.push(cols);
    let weight = TensorData { dims, data: zeros(rows * cols) };
    let mut bdims: Vec<usize> = Vec::new();
    bdims.push(rows);
    let bias = TensorData { dims: bdims, data: zeros(rows) };
    let l = Layer { weight, bias };
    proof {
        assert(l.weight.dims@ =~= seq![rows, cols]);
        assert(l.bias.dims@ =~= seq![rows]);
    }
    l
}

/// The feed-forward network agent: an ordered sequence of layers,
/// `I` inputs and `O` outputs.  The parameters are read-only once
/// constructed.
#[derive(Clone, Debug)]
pub struct MultiLayerPerceptron<const I: usize, const O: usize> {
    /// The layers, first applied first.
    pub layers: Vec<Layer>,
}

/// A requested topology is acceptable: a nonempty, bounded list of
/// bounded internal widths.
pub open spec fn topology_ok(sizes: Seq<usize>) -> bool {
    &&& 1 <= sizes.len() <= DEPTH_LIMIT - 1
    &&& forall|i: int| 0 <= i < sizes.len() ==> 1 <= #[trigger] sizes[i] <= WIDTH_LIMIT
}

impl<const I: usize, const O: usize> MultiLayerPerceptron<I, O> {
    /// Well-formedness: a nonempty, bounded chain of well-formed
    /// layers whose widths match, from `I` inputs to `O` outputs.
    pub open spec fn net_wf(&self) -> bool {
        &&& 1 <= self.layers@.len() <= DEPTH_LIMIT
        &&& forall|i: int| 0 <= i < self.layers@.len() ==> (#[trigger] self.layers@[i]).wf()
        &&& forall|i: int|
            0 <= i < self.layers@.len() - 1 ==> (#[trigger] self.layers@[i]).out_dim()
                == self.layers@[i + 1].in_dim()
        &&& self.layers@[0].in_dim() == I as int
        &&& self.layers@[self.layers@.len() - 1].out_dim() == O as int
    }

    /// Build a zero-initialized network: one layer from the `I`
    /// inputs to the first internal width, one layer between each
    /// pair of consecutive internal widths, and one layer from the
    /// last internal width to the `O` outputs.  Fails exactly on an
    /// empty or oversized topology.
    pub fn new(intern_layers_sizes: &Vec<usize>) -> (r: Result<Self, ModelError>)
        requires
            1 <= I <= WIDTH_LIMIT,
            1 <= O <= WIDTH_LIMIT,
        ensures
            r is Ok <==> topology_ok(intern_layers_sizes@),
            r matches Err(e) ==> e == ModelError::BadTopology,
            r matches Ok(m) ==> {
                &&& m.net_wf()
                &&& m.layers@.len() == intern_layers_sizes@.len() + 1
                &&& forall|i: int|
                    0 <= i < intern_layers_sizes@.len() ==> (#[trigger] m.layers@[i]).out_dim()
                        == intern_layers_sizes@[i] as int
                &&& forall|i: int, k: int|
                    #![trigger m.layers@[i].weight.data@[k]]
                    0 <= i < m.layers@.len() && 0 <= k < m.layers@[i].weight.data@.len()
                        ==> m.layers@[i].weight.data@[k] == 0
                &&& forall|i: int, k: int|
                    #![trigger m.layers@[i].bias.data@[k]]
                    0 <= i < m.layers@.len() && 0 <= k < m.layers@[i].bias.data@.len()
                        ==> m.layers@[i].bias.data@[k] == 0
            },
    {
        let n_intern = intern_layers_sizes.len();
        if n_intern < 1 || n_intern > DEPTH_LIMIT - 1 {
            return Err(ModelError::BadTopology);
        }
        let mut j: usize = 0;
        while j < n_intern
            invariant
                j <= n_intern,
                n_intern == intern_layers_sizes@.len(),
                forall|i: int|
                    0 <= i < j ==> 1 <= #[trigger] intern_layers_sizes@[i] <= WIDTH_LIMIT,
            decreases n_intern - j,
        {
            let w = intern_layers_sizes[j];
            if w < 1 || w > WIDTH_LIMIT {
                return Err(ModelError::BadTopology);
            }
            j = j + 1;
        }
        let mut layers: Vec<Layer> = Vec::new();
        layers.push(zero_layer(intern_layers_sizes[0], I));
        let mut i: usize = 1;
        while i < n_intern
            invariant
                1 <= i <= n_intern,
                n_intern == intern_layers_sizes@.len(),
                n_intern <= DEPTH_LIMIT - 1,
                1 <= I <= WIDTH_LIMIT,
                forall|q: int|
                    0 <= q < n_intern ==> 1 <= #[trigger] intern_layers_sizes@[q] <= WIDTH_LIMIT,
                layers@.len() == i,
                forall|q: int| 0 <= q < i ==> (#[trigger] layers@[q]).wf(),
                layers@[0].in_dim() == I as int,
                forall|q: int|
                    0 <= q < i ==> (#[trigger] layers@[q]).out_dim()
                        == intern_layers_sizes@[q] as int,
                forall|q: int|
                    1 <= q < i ==> (#[trigger] layers@[q]).in_dim() == intern_layers_sizes@[q
                        - 1] as int,
                forall|q: int, k: int|
                    #![trigger layers@[q].weight.data@[k]]
                    0 <= q < i && 0 <= k < layers@[q].weight.data@.len() ==> layers@[q].weight.data@[k]
                        == 0,
                forall|q: int, k: int|
                    #![trigger layers@[q].bias.data@[k]]
                    0 <= q < i && 0 <= k < layers@[q].bias.data@.len() ==> layers@[q].bias.data@[k]
                        == 0,
            decreases n_intern - i,
        {
            layers.push(zero_layer(intern_layers_sizes[i], intern_layers_sizes[i - 1]));
            i = i + 1;
        }
        layers.push(zero_layer(O, intern_layers_sizes[n_intern - 1]));
        let m = MultiLayerPerceptron { layers };
        proof {
            assert(m.net_wf());
        }
        Ok(m)
    }

    /// Feed a feature vector through every layer in order.  Succeeds
    /// exactly when the input length matches the network's `I`.
    pub fn forward(&self, x: &Vec<i64>) -> (r: Result<Vec<i64>, PolicyError>)
        requires
            self.net_wf(),
            forall|k: int| 0 <= k < x@.len() ==> -RANGE_LIMIT <= #[trigger] x@[k] <= RANGE_LIMIT,
        ensures
            r is Ok <==> x@.len() == I as int,
            r matches Err(e) ==> e == PolicyError::ShapeMismatch,
            r matches Ok(y) ==> y@.len() == O as int && to_ints(y@) == net_out_spec(
                self.layers@,
                to_ints(x@),
            ),
    {
        if x.len() != I {
            return Err(PolicyError::ShapeMismatch);
        }
        let n = self.layers.len();
        let mut cur = crate::model_io::copy_vec_i64(x);
        let ghost x0 = to_ints(x@);
        proof {
            assert(self.layers@.skip(0) =~= self.layers@);
        }
        let mut li: usize = 0;
        while li < n
            invariant
                li <= n,
                n == self.layers@.len(),
                self.net_wf(),
                li < n ==> cur@.len() == self.layers@[li as int].in_dim(),
                li == n ==> cur@.len() == O as int,
                li < n ==> forall|k: int|
                    0 <= k < cur@.len() ==> -RANGE_LIMIT <= #[trigger] cur@[k] <= RANGE_LIMIT,
                net_out_spec(self.layers@.skip(li as int), to_ints(cur@)) == net_out_spec(
                    self.layers@,
                    x0,
                ),
            decreases n - li,
        {
            let use_act = li + 1 < n;
            let ghost pre = to_ints(cur@);
            let y = layer_forward(&self.layers[li], &cur, use_act);
            proof {
                let tail = self.layers@.skip(li as int);
                assert(tail[0] == self.layers@[li as int]);
                assert(tail.skip(1) =~= self.layers@.skip(li as int + 1));
            }
            cur = y;
            li = li + 1;
        }
        proof {
            assert(self.layers@.skip(n as int) =~= Seq::<Layer>::empty());
        }
        Ok(cur)
    }
}

impl<G: Ground> Agent<MountainCar<G>> for MultiLayerPerceptron<2, 3> {
    open spec fn wf(&self) -> bool {
        self.net_wf()
    }

    /// The chosen action is the first greatest final output: index 0
    /// plays `Left`, the last index plays `Right`, every other index
    /// plays `DoNothing`.
    open spec fn policy_spec(&self, e: MountainCar<G>) -> Result<MountainAction, PolicyError> {
        let outs = net_out_spec(self.layers@, seq![e.pos as int, e.speed as int]);
        let i = argmax_spec(outs);
        Ok(
            if i == 0 {
                MountainAction::Left
            } else if i == 2 {
                MountainAction::Right
            } else {
                MountainAction::DoNothing
            },
        )
    }

    fn policy(&self, e: &MountainCar<G>) -> (r: Result<MountainAction, PolicyError>) {
        let mut feat: Vec<i64> = Vec::new();
        feat.push(e.pos);
        feat.push(e.speed);
        proof {
            assert(to_ints(feat@) =~= seq![e.pos as int, e.speed as int]);
        }
        let res = self.forward(&feat);
        match res {
            Ok(y) => {
                let i = argmax(&y);
                Ok(
                    if i == 0 {
                        MountainAction::Left
                    } else if i == 2 {
                        MountainAction::Right
                    } else {
                        MountainAction::DoNothing
                    },
                )
            },
            Err(_) => Err(PolicyError::ShapeMismatch),
        }
    }
}

/// The entries `to_entries` writes for a network: for layer `i`, the
/// weight under the key of slot `2 i` and the bias under the key of
/// slot `2 i + 1`, in that order.
pub open spec fn saved_entries_of<const I: usize, const O: usize>(
    m: MultiLayerPerceptron<I, O>,
    entries: Seq<NamedTensor>,
) -> bool {
    &&& entries.len() == 2 * m.layers@.len()
    &&& forall|i: int|
        #![trigger m.layers@[i]]
        0 <= i < m.layers@.len() ==> {
            &&& entries[2 * i].name@ == slot_key_seq((2 * i) as nat)
            &&& entries[2 * i].tensor.dims@ == m.layers@[i].weight.dims@
            &&& entries[2 * i].tensor.data@ == m.layers@[i].weight.data@
            &&& entries[2 * i + 1].name@ == slot_key_seq((2 * i + 1) as nat)
            &&& entries[2 * i + 1].tensor.dims@ == m.layers@[i].bias.dims@
            &&& entries[2 * i + 1].tensor.data@ == m.layers@[i].bias.data@
        }
}

/// The tensor stored under the key of slot `k`.
pub open spec fn slot_tensor(entries: Seq<NamedTensor>, k: int) -> TensorData {
    entries[find_key_spec(entries, slot_key_seq(k as nat))->0].tensor
}

/// Why an entry count cannot be a saved network: an odd count cannot
/// be paired, and an empty or oversized count is no topology.
pub open spec fn mlp_count_err(len: int) -> Option<ModelError> {
    if len % 2 != 0 {
        Some(ModelError::OddKeyCount)
    } else if len == 0 || len > 2 * DEPTH_LIMIT {
        Some(ModelError::BadTopology)
    } else {
        None
    }
}

/// Every slot key up to the entry count is present.
pub open spec fn mlp_slots_present(entries: Seq<NamedTensor>) -> bool {
    forall|k: int|
        0 <= k < entries.len() ==> (#[trigger] find_key_spec(entries, slot_key_seq(k as nat)))
            is Some
}

/// The weight and bias of pair `i` have matching, bounded shapes.
pub open spec fn slot_pair_shape_ok(entries: Seq<NamedTensor>, i: int) -> bool {
    let w = slot_tensor(entries, 2 * i);
    let b = slot_tensor(entries, 2 * i + 1);
    &&& w.dims@.len() == 2
    &&& 1 <= w.dims@[0] <= WIDTH_LIMIT
    &&& 1 <= w.dims@[1] <= WIDTH_LIMIT
    &&& w.data@.len() == w.dims@[0] * w.dims@[1]
    &&& b.has_shape1(w.dims@[0] as int)
}

/// All pairs have acceptable shapes and chain from `i_dim` inputs to
/// `o_dim` outputs.
pub open spec fn mlp_shapes_ok(entries: Seq<NamedTensor>, i_dim: int, o_dim: int) -> bool {
    let n = entries.len() as int / 2;
    &&& forall|i: int| 0 <= i < n ==> #[trigger] slot_pair_shape_ok(entries, i)
    &&& forall|i: int|
        1 <= i < n ==> (#[trigger] slot_tensor(entries, 2 * i)).dims@[1] == slot_tensor(
            entries,
            2 * i - 2,
        ).dims@[0]
    &&& slot_tensor(entries, 0).dims@[1] == i_dim
    &&& slot_tensor(entries, 2 * n - 2).dims@[0] == o_dim
}

/// Every stored tensor holds only representable values.
pub open spec fn mlp_values_ok(entries: Seq<NamedTensor>) -> bool {
    forall|k: int|
        0 <= k < entries.len() ==> (#[trigger] slot_tensor(entries, k)).values_in_range()
}

impl<const I: usize, const O: usize> MultiLayerPerceptron<I, O> {
    /// Emit the network as named tensors: each layer's weight and
    /// bias under consecutive fixed-width slot keys, in layer order.
    #[verifier::rlimit(100)]
    pub fn to_entries(&self) -> (entries: Vec<NamedTensor>)
        requires
            self.net_wf(),
        ensures
            saved_entries_of(*self, entries@),
    {
        let n = self.layers.len();
        let mut entries: Vec<NamedTensor> = Vec::new();
        let mut i: usize = 0;
        while i < n
            invariant
                i <= n,
                n == self.layers@.len(),
                n <= DEPTH_LIMIT,
                self.net_wf(),
                entries@.len() == 2 * i,
                forall|q: int|
                    #![trigger self.layers@[q]]
                    0 <= q < i ==> {
                        &&& entries@[2 * q].name@ == slot_key_seq((2 * q) as nat)
                        &&& entries@[2 * q].tensor.dims@ == self.layers@[q].weight.dims@
                        &&& entries@[2 * q].tensor.data@ == self.layers@[q].weight.data@
                        &&& entries@[2 * q + 1].name@ == slot_key_seq((2 * q + 1) as nat)
                        &&& entries@[2 * q + 1].tensor.dims@ == self.layers@[q].bias.dims@
                        &&& entries@[2 * q + 1].tensor.data@ == self.layers@[q].bias.data@
                    },
            decreases n - i,
        {
            entries.push(
                NamedTensor { name: slot_key(2 * i), tensor: self.layers[i].weight.duplicate() },
            );
            entries.push(
                NamedTensor {
                    name: slot_key(2 * i + 1),
                    tensor: self.layers[i].bias.duplicate(),
                },
            );
            i = i + 1;
        }
        entries
    }

    /// Rebuild a network from named tensors.  The entries must pair
    /// into consecutive slots (weight then bias per layer), with
    /// matching bounded shapes chaining from `I` inputs to `O`
    /// outputs and every value representable; each failure reports
    /// its cause, checked in the order count, presence, shapes,
    /// values.
    pub fn from_entries(entries: &Vec<NamedTensor>) -> (r: Result<Self, ModelError>)
        requires
            1 <= I <= WIDTH_LIMIT,
            1 <= O <= WIDTH_LIMIT,
        ensures
            mlp_count_err(entries@.len() as int) matches Some(e) ==> r == Err::<Self, ModelError>(
                e,
            ),
            r is Ok <==> mlp_count_err(entries@.len() as int) is None && mlp_slots_present(
                entries@,
            ) && mlp_shapes_ok(entries@, I as int, O as int) && mlp_values_ok(entries@),
            mlp_count_err(entries@.len() as int) is None && !mlp_slots_present(entries@) ==> r
                == Err::<Self, ModelError>(ModelError::MissingKey),
            mlp_count_err(entries@.len() as int) is None && mlp_slots_present(entries@)
                && !mlp_shapes_ok(entries@, I as int, O as int) ==> r == Err::<Self, ModelError>(
                ModelError::ShapeMismatch,
            ),
            mlp_count_err(entries@.len() as int) is None && mlp_slots_present(entries@)
                && mlp_shapes_ok(entries@, I as int, O as int) && !mlp_values_ok(entries@) ==> r
                == Err::<Self, ModelError>(ModelError::ValueOutOfRange),
            r matches Ok(m) ==> {
                &&& m.net_wf()
                &&& m.layers@.len() == entries@.len() as int / 2
                &&& forall|i: int|
                    #![trigger m.layers@[i]]
                    0 <= i < m.layers@.len() ==> {
                        &&& m.layers@[i].weight.dims@ == slot_tensor(entries@, 2 * i).dims@
                        &&& m.layers@[i].weight.data@ == slot_tensor(entries@, 2 * i).data@
                        &&& m.layers@[i].bias.dims@ == slot_tensor(entries@, 2 * i + 1).dims@
                        &&& m.layers@[i].bias.data@ == slot_tensor(entries@, 2 * i + 1).data@
                    }
            },
    {
        let len = entries.len();
        if len % 2 != 0 {
            return Err(ModelError::OddKeyCount);
        }
        if len == 0 || len > 2 * DEPTH_LIMIT {
            return Err(ModelError::BadTopology);
        }
        let idx = match find_slots(entries) {
            Ok(v) => v,
            Err(e) => {
                return Err(e);
            },
        };
        if !check_shapes(entries, &idx, I, O) {
            return Err(ModelError::ShapeMismatch);
        }
        if !check_all_values(entries, &idx) {
            return Err(ModelError::ValueOutOfRange);
        }
        let layers = collect_layers(entries, &idx);
        let m = MultiLayerPerceptron { layers };
        proof {
            assert(m.net_wf());
        }
        Ok(m)
    }
}

/// The index relation the slot lookup establishes: position `q` of
/// `idx` holds where the key of slot `q` was found.
pub open spec fn slots_indexed(entries: Seq<NamedTensor>, idx: Seq<usize>) -> bool {
    &&& idx.len() == entries.len()
    &&& forall|q: int|
        #![trigger idx[q]]
        0 <= q < entries.len() ==> find_key_spec(entries, slot_key_seq(q as nat)) == Some(
            idx[q] as int,
        ) && idx[q] < entries.len()
}

/// Look the key of every slot up, failing on the first absent one.
fn find_slots(entries: &Vec<NamedTensor>) -> (r: Result<Vec<usize>, ModelError>)
    requires
        entries@.len() <= 100,
    ensures
        r is Ok <==> mlp_slots_present(entries@),
        r matches Err(e) ==> e == ModelError::MissingKey,
        r matches Ok(idx) ==> slots_indexed(entries@, idx@),
{
    let len = entries.len();
    let mut idx: Vec<usize> = Vec::new();
    let mut k: usize = 0;
    while k < len
        invariant
            k <= len,
            len == entries@.len(),
            len <= 100,
            idx@.len() == k,
            forall|q: int|
                #![trigger idx@[q]]
                0 <= q < k ==> find_key_spec(entries@, slot_key_seq(q as nat)) == Some(
                    idx@[q] as int,
                ) && idx@[q] < entries@.len(),
        decreases len - k,
    {
        let key = slot_key(k);
        match find_key(entries, &key) {
            Some(i) => {
                idx.push(i);
            },
            None => {
                proof {
                    let kq: int = k as int;
                    assert(slot_key_seq(kq as nat) == slot_key_seq(k as nat));
                    assert(find_key_spec(entries@, slot_key_seq(kq as nat)) is None);
                    assert(!mlp_slots_present(entries@));
                }
                return Err(ModelError::MissingKey);
            },
        }
        k = k + 1;
    }
    proof {
        assert forall|q: int| 0 <= q < entries@.len() implies (#[trigger] find_key_spec(
            entries@,
            slot_key_seq(q as nat),
        )) is Some by {
            assert(find_key_spec(entries@, slot_key_seq(q as nat)) == Some(idx@[q] as int));
        }
    }
    Ok(idx)
}

/// Check that every weight and bias pair has an acceptable shape and
/// that the widths chain from `i_dim` inputs to `o_dim` outputs.
#[verifier::rlimit(100)]
fn check_shapes(entries: &Vec<NamedTensor>, idx: &Vec<usize>, i_dim: usize, o_dim: usize) -> (b:
    bool)
    requires
        mlp_count_err(entries@.len() as int) is None,
        slots_indexed(entries@, idx@),
        1 <= i_dim <= WIDTH_LIMIT,
        1 <= o_dim <= WIDTH_LIMIT,
    ensures
        b == mlp_shapes_ok(entries@, i_dim as int, o_dim as int),
{
    let len = entries.len();
    let n = len / 2;
    let mut prev_rows: usize = 0;
    let mut i: usize = 0;
    while i < n
        invariant
            i <= n,
            len == entries@.len(),
            n == len / 2,
            len == 2 * n,
            n >= 1,
            n <= DEPTH_LIMIT,
            1 <= i_dim <= WIDTH_LIMIT,
            1 <= o_dim <= WIDTH_LIMIT,
            slots_indexed(entries@, idx@),
            forall|q: int| 0 <= q < i ==> #[trigger] slot_pair_shape_ok(entries@, q),
            forall|q: int|
                1 <= q < i ==> (#[trigger] slot_tensor(entries@, 2 * q)).dims@[1] == slot_tensor(
                    entries@,
                    2 * q - 2,
                ).dims@[0],
            i > 0 ==> slot_tensor(entries@, 0).dims@[1] == i_dim as int,
            i > 0 ==> prev_rows as int == slot_tensor(entries@, 2 * i - 2).dims@[0],
            i > 0 ==> 1 <= prev_rows <= WIDTH_LIMIT,
            i == n ==> slot_tensor(entries@, 2 * n - 2).dims@[0] == o_dim as int,
        decreases n - i,
    {
        let wt = &entries[idx[2 * i]].tensor;
        let bt = &entries[idx[2 * i + 1]].tensor;
        proof {
            assert(slot_tensor(entries@, 2 * i) == entries@[idx@[2 * i] as int].tensor);
            assert(slot_tensor(entries@, 2 * i + 1) == entries@[idx@[2 * i + 1] as int].tensor);
        }
        if wt.dims.len() != 2 {
            proof {
                assert(!slot_pair_shape_ok(entries@, i as int));
            }
            return false;
        }
        let rows = wt.dims[0];
        let cols = wt.dims[1];
        if rows < 1 || rows > WIDTH_LIMIT || cols < 1 || cols > WIDTH_LIMIT {
            proof {
                assert(!slot_pair_shape_ok(entries@, i as int));
            }
            return false;
        }
        proof {
            assert(0 <= rows as int * cols as int <= 65536) by (nonlinear_arith)
                requires
                    1 <= rows <= 256,
                    1 <= cols <= 256,
            ;
        }
        if wt.data.len() != rows * cols {
            proof {
                assert(!slot_pair_shape_ok(entries@, i as int));
            }
            return false;
        }
        if !bt.check_shape1(rows) {
            proof {
                assert(!slot_pair_shape_ok(entries@, i as int));
            }
            return false;
        }
        if i == 0 {
            if cols != i_dim {
                proof {
                    assert(slot_tensor(entries@, 0).dims@[1] != i_dim as int);
                }
                return false;
            }
        } else {
            if cols != prev_rows {
                proof {
                    assert((slot_tensor(entries@, 2 * i as int)).dims@[1] != slot_tensor(
                        entries@,
                        2 * i as int - 2,
                    ).dims@[0]);
                }
                return false;
            }
        }
        if i == n - 1 {
            if rows != o_dim {
                proof {
                    assert(slot_tensor(entries@, 2 * (n as int) - 2).dims@[0] != o_dim as int);
                }
                return false;
            }
        }
        prev_rows = rows;
        i = i + 1;
    }
    true
}

/// Check that every stored tensor holds only representable values.
fn check_all_values(entries: &Vec<NamedTensor>, idx: &Vec<usize>) -> (b: bool)
    requires
        slots_indexed(entries@, idx@),
    ensures
        b == mlp_values_ok(entries@),
{
    let len = entries.len();
    let mut k: usize = 0;
    while k < len
        invariant
            k <= len,
            len == entries@.len(),
            slots_indexed(entries@, idx@),
            forall|q: int| 0 <= q < k ==> (#[trigger] slot_tensor(entries@, q)).values_in_range(),
        decreases len - k,
    {
        let t = &entries[idx[k]].tensor;
        proof {
            assert(slot_tensor(entries@, k as int) == entries@[idx@[k as int] as int].tensor);
        }
        if !t.check_values() {
            return false;
        }
        k = k + 1;
    }
    true
}

/// Copy the stored tensors of every slot pair into layers.
fn collect_layers(entries: &Vec<NamedTensor>, idx: &Vec<usize>) -> (layers: Vec<Layer>)
    requires
        mlp_count_err(entries@.len() as int) is None,
        slots_indexed(entries@, idx@),
        forall|q: int|
            0 <= q < entries@.len() as int / 2 ==> #[trigger] slot_pair_shape_ok(entries@, q),
        mlp_values_ok(entries@),
    ensures
        layers@.len() == entries@.len() as int / 2,
        forall|q: int|
            #![trigger layers@[q]]
            0 <= q < layers@.len() ==> {
                &&& layers@[q].weight.dims@ == slot_tensor(entries@, 2 * q).dims@
                &&& layers@[q].weight.data@ == slot_tensor(entries@, 2 * q).data@
                &&& layers@[q].bias.dims@ == slot_tensor(entries@, 2 * q + 1).dims@
                &&& layers@[q].bias.data@ == slot_tensor(entries@, 2 * q + 1).data@
                &&& layers@[q].wf()
            },
{
    let len = entries.len();
    let n = len / 2;
    let mut layers: Vec<Layer> = Vec::new();
    let mut i: usize = 0;
    while i < n
        invariant
            i <= n,
            len == entries@.len(),
            n == len / 2,
            len == 2 * n,
            slots_indexed(entries@, idx@),
            forall|q: int|
                0 <= q < entries@.len() as int / 2 ==> #[trigger] slot_pair_shape_ok(entries@, q),
            mlp_values_ok(entries@),
            layers@.len() == i,
            forall|q: int|
                #![trigger layers@[q]]
                0 <= q < i ==> {
                    &&& layers@[q].weight.dims@ == slot_tensor(entries@, 2 * q).dims@
                    &&& layers@[q].weight.data@ == slot_tensor(entries@, 2 * q).data@
                    &&& layers@[q].bias.dims@ == slot_tensor(entries@, 2 * q + 1).dims@
                    &&& layers@[q].bias.data@ == slot_tensor(entries@, 2 * q + 1).data@
                    &&& layers@[q].wf()
                },
        decreases n - i,
    {
        let wt = &entries[idx[2 * i]].tensor;
        let bt = &entries[idx[2 * i + 1]].tensor;
        proof {
            assert(slot_tensor(entries@, 2 * i) == entries@[idx@[2 * i] as int].tensor);
            assert(slot_tensor(entries@, 2 * i + 1) == entries@[idx@[2 * i + 1] as int].tensor);
            assert(slot_pair_shape_ok(entries@, i as int));
            let w = slot_tensor(entries@, 2 * i);
            assert(w.dims@ =~= seq![w.dims@[0] as usize, w.dims@[1] as usize]);
            let b = slot_tensor(entries@, 2 * i + 1);
            assert(b.dims@ =~= seq![b.dims@[0] as usize]);
        }
        let l = Layer { weight: wt.duplicate(), bias: bt.duplicate() };
        layers.push(l);
        i = i + 1;
    }
    layers
}

/// In a sequence of entries whose names are exactly the slot keys in
/// order, looking slot `k` up from any position at or before `k`
/// finds position `k`: fixed-width keys are injective, so the scan
/// passes every earlier entry.
proof fn lemma_find_saved_slot(entries: Seq<NamedTensor>, k: nat, j: nat)
    requires
        entries.len() <= 100,
        forall|q: int|
            0 <= q < entries.len() ==> (#[trigger] entries[q]).name@ == slot_key_seq(q as nat),
        j <= k < entries.len(),
    ensures
        find_from(entries, slot_key_seq(k), j) == Some(k as int),
    decreases k - j,
{
    if j == k {
        assert(entries[j as int].name@ == slot_key_seq(k));
    } else {
        if entries[j as int].name@ == slot_key_seq(k) {
            lemma_slot_key_injective(j, k);
            assert(false);
        }
        lemma_find_saved_slot(entries, k, j + 1);
    }
}

/// The model round trip: the entries a well-formed network saves load
/// back without error, and every reloaded weight and bias is
/// numerically identical to the original.  Together with
/// `from_entries`' contract this pins the reload to the exact tensors
/// that were saved, and with `lemma_net_out_views` it pins the
/// reloaded network's outputs, and so its policy, to the original's.
#[verifier::rlimit(100)]
pub proof fn lemma_model_round_trip<const I: usize, const O: usize>(
    m: MultiLayerPerceptron<I, O>,
    entries: Seq<NamedTensor>,
)
    requires
        1 <= I <= WIDTH_LIMIT,
        1 <= O <= WIDTH_LIMIT,
        m.net_wf(),
        saved_entries_of(m, entries),
    ensures
        mlp_count_err(entries.len() as int) is None,
        mlp_slots_present(entries),
        mlp_shapes_ok(entries, I as int, O as int),
        mlp_values_ok(entries),
        forall|i: int|
            #![trigger m.layers@[i]]
            0 <= i < m.layers@.len() ==> {
                &&& slot_tensor(entries, 2 * i).dims@ == m.layers@[i].weight.dims@
                &&& slot_tensor(entries, 2 * i).data@ == m.layers@[i].weight.data@
                &&& slot_tensor(entries, 2 * i + 1).dims@ == m.layers@[i].bias.dims@
                &&& slot_tensor(entries, 2 * i + 1).data@ == m.layers@[i].bias.data@
            },
{
    let n = m.layers@.len() as int;
    assert forall|q: int| 0 <= q < entries.len() implies (#[trigger] entries[q]).name@
        == slot_key_seq(q as nat) by {
        let i = q / 2;
        assert(0 <= i < n);
        assert(m.layers@[i] == m.layers@[i]);
        if q % 2 == 0 {
            assert(q == 2 * i);
        } else {
            assert(q == 2 * i + 1);
        }
    }
    assert forall|k: int| 0 <= k < entries.len() implies (#[trigger] find_key_spec(
        entries,
        slot_key_seq(k as nat),
    )) == Some(k) by {
        lemma_find_saved_slot(entries, k as nat, 0);
    }
    assert forall|i: int| 0 <= i < n implies #[trigger] slot_pair_shape_ok(entries, i) by {
        assert(m.layers@[i].wf());
        assert(slot_tensor(entries, 2 * i) == entries[2 * i].tensor);
        assert(slot_tensor(entries, 2 * i + 1) == entries[2 * i + 1].tensor);
    }
    assert forall|k: int| 0 <= k < entries.len() implies (#[trigger] slot_tensor(
        entries,
        k,
    )).values_in_range() by {
        let i = k / 2;
        assert(m.layers@[i].wf());
        assert(slot_tensor(entries, k) == entries[k].tensor);
        if k % 2 == 0 {
            assert(k == 2 * i);
        } else {
            assert(k == 2 * i + 1);
        }
    }
    assert forall|i: int| 1 <= i < n implies (#[trigger] slot_tensor(entries, 2 * i)).dims@[1]
        == slot_tensor(entries, 2 * i - 2).dims@[0] by {
        assert(m.layers@[i].wf());
        assert(m.layers@[i - 1].wf());
        assert(m.layers@[i - 1].out_dim() == m.layers@[i].in_dim());
        assert(slot_tensor(entries, 2 * i) == entries[2 * i].tensor);
        assert(slot_tensor(entries, 2 * i - 2) == entries[2 * (i - 1)].tensor);
    }
    assert(m.layers@[0] == m.layers@[0]);
    assert(m.layers@[n - 1] == m.layers@[n - 1]);
    assert(slot_tensor(entries, 0) == entries[0].tensor);
    assert(slot_tensor(entries, 2 * n - 2) == entries[2 * (n - 1)].tensor);
}

/// Networks whose layers hold the same shapes and values compute the
/// same outputs: the forward pass depends on the stored numbers
/// alone.
pub proof fn lemma_net_out_views(l1: Seq<Layer>, l2: Seq<Layer>, x: Seq<int>)
    requires
        l1.len() == l2.len(),
        forall|i: int|
            #![trigger l1[i]]
            0 <= i < l1.len() ==> {
                &&& l1[i].weight.dims@ == l2[i].weight.dims@
                &&& l1[i].weight.data@ == l2[i].weight.data@
                &&& l1[i].bias.data@ == l2[i].bias.data@
            },
    ensures
        net_out_spec(l1, x) == net_out_spec(l2, x),
    decreases l1.len(),
{
    if l1.len() == 0 {
    } else {
        assert(l1[0] == l1[0]);
        assert forall|r: int| true implies #[trigger] layer_pre_spec(l1[0], x, r)
            == layer_pre_spec(l2[0], x, r) by {
            assert(l1[0].in_dim() == l2[0].in_dim());
            assert(l1[0].weight.data@ == l2[0].weight.data@);
        }
        if l1.len() == 1 {
            assert(layer_vals_spec(l1[0], x, false) =~= layer_vals_spec(l2[0], x, false));
        } else {
            assert(layer_vals_spec(l1[0], x, true) =~= layer_vals_spec(l2[0], x, true));
            assert forall|i: int|
                #![trigger l1.skip(1)[i]]
                0 <= i < l1.skip(1).len() implies {
                &&& l1.skip(1)[i].weight.dims@ == l2.skip(1)[i].weight.dims@
                &&& l1.skip(1)[i].weight.data@ == l2.skip(1)[i].weight.data@
                &&& l1.skip(1)[i].bias.data@ == l2.skip(1)[i].bias.data@
            } by {
                assert(l1.skip(1)[i] == l1[i + 1]);
                assert(l2.skip(1)[i] == l2[i + 1]);
                assert(l1[i + 1] == l1[i + 1]);
            }
            lemma_net_out_views(l1.skip(1), l2.skip(1), layer_vals_spec(l1[0], x, true));
        }
    }
}

} // verus!
