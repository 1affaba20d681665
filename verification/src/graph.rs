//! Model of the backend graph session.
//!
//! The analysis owns exactly one [`Graph`] for the lifetime of an
//! optimization session. Every constructor below mirrors one entry point of
//! the tensor-execution backend: it appends one op (and its output tensor
//! descriptors) to the session and hands back opaque handles into the
//! session's tensor table. The model records what the metadata analysis
//! depends on — output shapes, the activation flag, the producing op of
//! each tensor, and registered edges — not runtime tensor values or costs.
//!
//! Shape rules: tensors are `(N, C, H, W)` for the 2-d ops, weights are
//! `(kernelH, kernelW, inChannels, outChannels)`. A constructor whose shape
//! rule does not apply to its arguments returns `None`, the model's
//! invalid-result sentinel; it never changes the session in that case.

use vstd::prelude::*;

use crate::lang::{valid_activation, valid_padding, ACTNONE, PSAME, PVALID};
use crate::metadata::TensorHandle;

verus! {

/// One tensor descriptor owned by the session: its shape, whether the op
/// that produced it applied an activation, the producing op, and which of
/// that op's outputs it is.
#[derive(Clone, Debug)]
pub struct TensorInfo {
    pub shape: Vec<i32>,
    pub act: bool,
    pub op: usize,
    pub out_idx: usize,
}

/// Mathematical model of a [`TensorInfo`].
pub ghost struct TensorInfoV {
    pub shape: Seq<i32>,
    pub act: bool,
    pub op: int,
    pub out_idx: int,
}

impl View for TensorInfo {
    type V = TensorInfoV;

    open spec fn view(&self) -> TensorInfoV {
        TensorInfoV {
            shape: self.shape@,
            act: self.act,
            op: self.op as int,
            out_idx: self.out_idx as int,
        }
    }
}

/// A registered edge: output `src_idx` of op `src_op` feeds input slot
/// `dst_idx` of op `dst_op`.
#[derive(Clone, Copy, PartialEq, Eq, Structural, Debug)]
pub struct Edge {
    pub src_op: usize,
    pub dst_op: usize,
    pub src_idx: usize,
    pub dst_idx: usize,
}

/// Mathematical model of a whole session graph.
#[verifier::ext_equal]
pub ghost struct GraphV {
    pub tensors: Seq<TensorInfoV>,
    pub edges: Seq<Edge>,
    pub n_ops: int,
}

/// The backend graph session: one exclusively-owned graph instance,
/// created at analysis initialization and torn down with the session.
/// Handles obtained from it index its tensor table and are valid only as
/// long as the session lives.
#[derive(Debug)]
pub struct Graph {
    pub tensors: Vec<TensorInfo>,
    pub edges: Vec<Edge>,
    pub n_ops: usize,
}

impl View for Graph {
    type V = GraphV;

    open spec fn view(&self) -> GraphV {
        GraphV {
            tensors: self.tensors@.map_values(|t: TensorInfo| t@),
            edges: self.edges@,
            n_ops: self.n_ops as int,
        }
    }
}

/// A legal tensor dimension: positive (and bounded by its `i32` carrier).
pub open spec fn dim_ok(d: i32) -> bool {
    1 <= d
}

/// A legal tensor shape: rank at least one, every dimension positive.
pub open spec fn shape_ok(s: Seq<i32>) -> bool {
    &&& s.len() >= 1
    &&& forall|i: int| 0 <= i < s.len() ==> dim_ok(#[trigger] s[i])
}

/// The tensor-table index a handle refers to, or `-1` for the null handle.
pub open spec fn hidx(h: TensorHandle) -> int {
    match h {
        TensorHandle::Null => -1,
        TensorHandle::Idx(i) => i as int,
    }
}

/// A handle that refers to a tensor of session `g`.
pub open spec fn valid_handle(g: GraphV, h: TensorHandle) -> bool {
    0 <= hidx(h) < g.tensors.len()
}

/// The tensor descriptor a valid handle refers to.
pub open spec fn tensor_at(g: GraphV, h: TensorHandle) -> TensorInfoV {
    g.tensors[hidx(h)]
}

/// Session well-formedness: ops produce at least one tensor each, every
/// tensor has a legal shape, comes from an existing op as output 0 or 1,
/// and every edge connects existing ops.
pub open spec fn wf_graph(g: GraphV) -> bool {
    &&& 0 <= g.n_ops <= g.tensors.len()
    &&& forall|i: int| 0 <= i < g.tensors.len() ==> shape_ok(#[trigger] g.tensors[i].shape)
    &&& forall|i: int| 0 <= i < g.tensors.len() ==> 0 <= #[trigger] g.tensors[i].op < g.n_ops
    &&& forall|i: int| 0 <= i < g.tensors.len() ==> 0 <= #[trigger] g.tensors[i].out_idx <= 1
    &&& forall|i: int|
        0 <= i < g.edges.len() ==> (#[trigger] g.edges[i].src_op < g.n_ops
            && g.edges[i].dst_op < g.n_ops)
}

/// `g` after one new op with a single output tensor of shape `shape`.
pub open spec fn add_tensor(g: GraphV, shape: Seq<i32>, act: bool) -> GraphV {
    GraphV {
        tensors: g.tensors.push(
            TensorInfoV { shape: shape, act: act, op: g.n_ops, out_idx: 0 },
        ),
        edges: g.edges,
        n_ops: g.n_ops + 1,
    }
}

/// `g` after one new op with two output tensors (a 2-way split).
pub open spec fn add_pair(g: GraphV, shape_0: Seq<i32>, shape_1: Seq<i32>) -> GraphV {
    GraphV {
        tensors: g.tensors.push(
            TensorInfoV { shape: shape_0, act: false, op: g.n_ops, out_idx: 0 },
        ).push(TensorInfoV { shape: shape_1, act: false, op: g.n_ops, out_idx: 1 }),
        edges: g.edges,
        n_ops: g.n_ops + 1,
    }
}

/// `g` after registering one edge.
pub open spec fn with_edge(g: GraphV, e: Edge) -> GraphV {
    GraphV { tensors: g.tensors, edges: g.edges.push(e), n_ops: g.n_ops }
}

/// Output extent of a window op along one axis: with `SAME` padding the
/// input extent divided by the stride, rounded up; with `VALID` padding
/// the number of full kernel placements.
pub open spec fn out_dim(size: i32, kernel: i32, stride: i32, pad: i32) -> int {
    if pad == PSAME {
        (size + stride - 1) / (stride as int)
    } else {
        (size - kernel) / (stride as int) + 1
    }
}

/// Shape rule for the elementwise ops: both shapes equal, result the same.
pub open spec fn ew_shape(a: Seq<i32>, b: Seq<i32>) -> Option<Seq<i32>> {
    if a == b {
        Some(a)
    } else {
        None
    }
}

/// Shape rule for matrix multiplication of two rank-2 tensors.
pub open spec fn matmul_shape(a: Seq<i32>, b: Seq<i32>) -> Option<Seq<i32>> {
    if a.len() == 2 && b.len() == 2 && a[1] == b[0] {
        Some(seq![a[0], b[1]])
    } else {
        None
    }
}

/// Shape rule for 2-d convolution: input `(N, C, H, W)`, weight
/// `(kH, kW, C, Cout)`, output `(N, Cout, outH, outW)`.
pub open spec fn conv2d_shape(
    inpt: Seq<i32>,
    wght: Seq<i32>,
    stride_h: i32,
    stride_w: i32,
    pad: i32,
) -> Option<Seq<i32>> {
    if inpt.len() == 4 && wght.len() == 4 && wght[2] == inpt[1] && stride_h >= 1 && stride_w >= 1
        && (pad == PVALID ==> inpt[2] >= wght[0] && inpt[3] >= wght[1]) {
        Some(
            seq![
                inpt[0],
                wght[3],
                out_dim(inpt[2], wght[0], stride_h, pad) as i32,
                out_dim(inpt[3], wght[1], stride_w, pad) as i32,
            ],
        )
    } else {
        None
    }
}

/// Shape rule for 2-d pooling over an `(N, C, H, W)` input.
pub open spec fn pool2d_shape(
    inpt: Seq<i32>,
    kernel_h: i32,
    kernel_w: i32,
    stride_h: i32,
    stride_w: i32,
    pad: i32,
) -> Option<Seq<i32>> {
    if inpt.len() == 4 && kernel_h >= 1 && kernel_w >= 1 && stride_h >= 1 && stride_w >= 1 && (
    pad == PVALID ==> inpt[2] >= kernel_h && inpt[3] >= kernel_w) {
        Some(
            seq![
                inpt[0],
                inpt[1],
                out_dim(inpt[2], kernel_h, stride_h, pad) as i32,
                out_dim(inpt[3], kernel_w, stride_w, pad) as i32,
            ],
        )
    } else {
        None
    }
}

/// Shape rule for concatenating two tensors along `axis`: equal shapes
/// except along the axis, whose extents add (and must stay in range).
pub open spec fn concat_shape(axis: i32, a: Seq<i32>, b: Seq<i32>) -> Option<Seq<i32>> {
    if a.len() == b.len() && 0 <= axis < a.len() && (forall|i: int|
        0 <= i < a.len() && i != axis ==> #[trigger] a[i] == b[i]) && a[axis as int] + b[axis as int]
        <= i32::MAX {
        Some(a.update(axis as int, (a[axis as int] + b[axis as int]) as i32))
    } else {
        None
    }
}

/// Shape rule for a 2-way split along `axis`: the first output takes the
/// rounded-up half of the extent, the second the remaining half. The axis
/// extent must be at least 2 so both halves stay non-empty.
pub open spec fn split_shapes(axis: i32, t: Seq<i32>) -> Option<(Seq<i32>, Seq<i32>)> {
    if 0 <= axis < t.len() && t[axis as int] >= 2 {
        let d = t[axis as int];
        Some(
            (
                t.update(axis as int, (d - d / 2) as i32),
                t.update(axis as int, (d / 2) as i32),
            ),
        )
    } else {
        None
    }
}

/// Shape rule for merging a grouped-convolution weight `(kH, kW, Cin,
/// Cout)` over `count` groups: the input-channel extent multiplies by the
/// group count (and must stay in range).
pub open spec fn merge_shape(wght: Seq<i32>, count: i32) -> Option<Seq<i32>> {
    if wght.len() == 4 && count >= 1 && wght[2] * count <= i32::MAX {
        Some(wght.update(2, (wght[2] * count) as i32))
    } else {
        None
    }
}

/// Shape rule for enlarging a weight's kernel to a reference kernel: the
/// output takes the reference's spatial extents and keeps the target's
/// channel extents.
pub open spec fn enlarge_shape(target: Seq<i32>, reference: Seq<i32>) -> Option<Seq<i32>> {
    if target.len() == 4 && reference.len() == 4 && reference[0] >= target[0] && reference[1]
        >= target[1] {
        Some(seq![reference[0], reference[1], target[2], target[3]])
    } else {
        None
    }
}

/// Compares two shapes for equality.
fn dims_eq(a: &Vec<i32>, b: &Vec<i32>) -> (r: bool)
    ensures
        r == (a@ == b@),
{
    if a.len() != b.len() {
        proof {
            assert(a@ !~= b@);
        }
        return false;
    }
    let n = a.len();
    let mut i: usize = 0;
    while i < n
        invariant
            n == a@.len() == b@.len(),
            0 <= i <= n,
            forall|j: int| 0 <= j < i ==> a@[j] == b@[j],
        decreases n - i,
    {
        if a[i] != b[i] {
            return false;
        }
        i = i + 1;
    }
    proof {
        assert(a@ =~= b@);
    }
    true
}

/// Computes [`out_dim`] without overflow; the result never exceeds the
/// input extent.
fn out_dim_exec(size: i32, kernel: i32, stride: i32, pad: i32) -> (r: i32)
    requires
        1 <= size,
        1 <= stride,
        valid_padding(pad as int),
        pad == PVALID ==> 1 <= kernel <= size,
    ensures
        r as int == out_dim(size, kernel, stride, pad),
        1 <= r <= size,
{
    if pad == PSAME {
        let num: u64 = (size as u64) + (stride as u64) - 1;
        let q: u64 = num / (stride as u64);
        proof {
            assert(q == (size + stride - 1) / (stride as int));
            assert(1 <= q <= size) by (nonlinear_arith)
                requires
                    q == (size + stride - 1) / (stride as int),
                    1 <= size,
                    1 <= stride,
            ;
        }
        q as i32
    } else {
        let num: u64 = (size as u64) - (kernel as u64);
        let q: u64 = num / (stride as u64);
        proof {
            assert(q == (size - kernel) / (stride as int));
            assert(q <= size - kernel) by (nonlinear_arith)
                requires
                    q == (size - kernel) / (stride as int),
                    0 <= size - kernel,
                    1 <= stride,
            ;
        }
        (q as i32) + 1
    }
}

/// The number of elements of a tensor of shape `s`: the product of its
/// dimensions.
pub open spec fn dims_product(s: Seq<i32>) -> int
    decreases s.len(),
{
    if s.len() == 0 {
        1
    } else {
        dims_product(s.drop_last()) * (s.last() as int)
    }
}

/// With every dimension positive, an element count is positive.
pub proof fn lemma_dims_product_pos(s: Seq<i32>, i: int)
    requires
        forall|k: int| 0 <= k < s.len() ==> 1 <= #[trigger] s[k],
        0 <= i <= s.len(),
    ensures
        1 <= dims_product(s.take(i)),
    decreases i,
{
    if i == 0 {
        assert(s.take(0) =~= Seq::<i32>::empty());
    } else {
        lemma_dims_product_pos(s, i - 1);
        let t = s.take(i);
        assert(t.drop_last() =~= s.take(i - 1));
        let a = dims_product(s.take(i - 1));
        let d = t.last() as int;
        assert(1 <= a * d) by (nonlinear_arith)
            requires
                1 <= a,
                1 <= d,
        ;
    }
}

/// With every dimension positive, the element count of a longer prefix is
/// never smaller.
pub proof fn lemma_dims_product_grows(s: Seq<i32>, i: int, j: int)
    requires
        forall|k: int| 0 <= k < s.len() ==> 1 <= #[trigger] s[k],
        0 <= i <= j <= s.len(),
    ensures
        dims_product(s.take(i)) <= dims_product(s.take(j)),
    decreases j - i,
{
    if i < j {
        lemma_dims_product_grows(s, i, j - 1);
        lemma_dims_product_pos(s, j - 1);
        let t = s.take(j);
        assert(t.drop_last() =~= s.take(j - 1));
        let a = dims_product(s.take(j - 1));
        let d = t.last() as int;
        assert(a <= a * d) by (nonlinear_arith)
            requires
                1 <= a,
                1 <= d,
        ;
    } else {
        assert(s.take(i) =~= s.take(j));
    }
}

/// The number of random values a caller must allocate and hand to the
/// backend beside a weight's dimension buffer: one per element, the
/// product of the dimensions. `None` when that count does not fit `u64`.
pub fn weight_entry_count(dims: &Vec<i32>) -> (r: Option<u64>)
    requires
        shape_ok(dims@),
    ensures
        match r {
            Some(p) => p as int == dims_product(dims@),
            None => dims_product(dims@) > u64::MAX,
        },
{
    let n = dims.len();
    let mut p: u64 = 1;
    let mut i: usize = 0;
    proof {
        assert(dims@.take(0) =~= Seq::<i32>::empty());
    }
    while i < n
        invariant
            n == dims@.len(),
            shape_ok(dims@),
            0 <= i <= n,
            p as int == dims_product(dims@.take(i as int)),
            1 <= p,
        decreases n - i,
    {
        let d = dims[i];
        proof {
            let pre = dims@.take(i + 1);
            assert(pre.drop_last() =~= dims@.take(i as int));
            assert(pre.last() == dims@[i as int]);
        }
        match p.checked_mul(d as u64) {
            Some(np) => {
                proof {
                    assert(1 <= (p as int) * (d as int)) by (nonlinear_arith)
                        requires
                            1 <= p,
                            1 <= d,
                    ;
                }
                p = np;
            },
            None => {
                proof {
                    lemma_dims_product_grows(dims@, i + 1, n as int);
                    assert(dims@.take(n as int) =~= dims@);
                }
                return None;
            },
        }
        i = i + 1;
    }
    proof {
        assert(dims@.take(n as int) =~= dims@);
    }
    Some(p)
}

impl Graph {
    /// The session invariant.
    pub open spec fn wf(&self) -> bool {
        wf_graph(self@)
    }

    /// Creates the one empty backend graph of a fresh session.
    pub fn new() -> (g: Graph)
        ensures
            g.wf(),
            g@.tensors == Seq::<TensorInfoV>::empty(),
            g@.edges == Seq::<Edge>::empty(),
            g@.n_ops == 0,
    {
        let g = Graph { tensors: Vec::new(), edges: Vec::new(), n_ops: 0 };
        proof {
            assert(g@.tensors =~= Seq::<TensorInfoV>::empty());
            assert(g@.edges =~= Seq::<Edge>::empty());
        }
        g
    }

    /// Appends one op with a single output tensor and returns its handle.
    fn push_tensor(&mut self, shape: Vec<i32>, act: bool) -> (h: TensorHandle)
        requires
            old(self).wf(),
            shape_ok(shape@),
        ensures
            final(self).wf(),
            final(self)@ == add_tensor(old(self)@, shape@, act),
            h == TensorHandle::Idx(old(self)@.tensors.len() as usize),
            valid_handle(final(self)@, h),
            tensor_at(final(self)@, h).shape == shape@,
    {
        let idx = self.tensors.len();
        let op = self.n_ops;
        self.tensors.push(TensorInfo { shape: shape, act: act, op: op, out_idx: 0 });
        let n = self.tensors.len();
        proof {
            assert(op < n);
        }
        self.n_ops = op + 1;
        proof {
            assert(self@ =~= add_tensor(old(self)@, shape@, act));
        }
        TensorHandle::Idx(idx)
    }

    /// Appends one op with two output tensors and returns both handles.
    fn push_pair(&mut self, shape_0: Vec<i32>, shape_1: Vec<i32>) -> (hs: (TensorHandle, TensorHandle))
        requires
            old(self).wf(),
            shape_ok(shape_0@),
            shape_ok(shape_1@),
        ensures
            final(self).wf(),
            final(self)@ == add_pair(old(self)@, shape_0@, shape_1@),
            hs.0 == TensorHandle::Idx(old(self)@.tensors.len() as usize),
            hs.1 == TensorHandle::Idx((old(self)@.tensors.len() + 1) as usize),
            valid_handle(final(self)@, hs.0),
            valid_handle(final(self)@, hs.1),
    {
        let idx = self.tensors.len();
        let op = self.n_ops;
        self.tensors.push(TensorInfo { shape: shape_0, act: false, op: op, out_idx: 0 });
        self.tensors.push(TensorInfo { shape: shape_1, act: false, op: op, out_idx: 1 });
        let n = self.tensors.len();
        proof {
            assert(op < n);
        }
        self.n_ops = op + 1;
        proof {
            assert(self@ =~= add_pair(old(self)@, shape_0@, shape_1@));
        }
        (TensorHandle::Idx(idx), TensorHandle::Idx(idx + 1))
    }

    /// The number of ops created in this session so far.
    pub fn num_ops(&self) -> (n: usize)
        ensures
            n as int == self@.n_ops,
    {
        self.n_ops
    }

    /// The producing op and output index of the tensor behind `h`.
    pub fn tensor_src(&self, h: TensorHandle) -> (r: (usize, usize))
        requires
            self.wf(),
            valid_handle(self@, h),
        ensures
            r.0 as int == tensor_at(self@, h).op,
            r.1 as int == tensor_at(self@, h).out_idx,
    {
        match h {
            TensorHandle::Idx(i) => {
                let t = &self.tensors[i];
                (t.op, t.out_idx)
            },
            TensorHandle::Null => {
                proof {
                    assert(false);
                }
                (0, 0)
            },
        }
    }

    /// The shape of the tensor behind `h`, as reported by the session.
    pub fn tensor_shape(&self, h: TensorHandle) -> (r: Vec<i32>)
        requires
            self.wf(),
            valid_handle(self@, h),
        ensures
            r@ == tensor_at(self@, h).shape,
    {
        match h {
            TensorHandle::Idx(i) => self.tensors[i].shape.clone(),
            TensorHandle::Null => {
                proof {
                    assert(false);
                }
                Vec::new()
            },
        }
    }

    /// Whether the op producing the tensor behind `h` applied an activation.
    pub fn tensor_act(&self, h: TensorHandle) -> (r: bool)
        requires
            self.wf(),
            valid_handle(self@, h),
        ensures
            r == tensor_at(self@, h).act,
    {
        match h {
            TensorHandle::Idx(i) => self.tensors[i].act,
            TensorHandle::Null => {
                proof {
                    assert(false);
                }
                false
            },
        }
    }

    /// Registers an edge between two existing ops.
    pub fn add_edge(&mut self, src_op: usize, dst_op: usize, src_idx: usize, dst_idx: usize)
        requires
            old(self).wf(),
            src_op < old(self)@.n_ops,
            dst_op < old(self)@.n_ops,
        ensures
            final(self).wf(),
            final(self)@ == with_edge(
                old(self)@,
                Edge { src_op: src_op, dst_op: dst_op, src_idx: src_idx, dst_idx: dst_idx },
            ),
    {
        self.edges.push(Edge { src_op: src_op, dst_op: dst_op, src_idx: src_idx, dst_idx: dst_idx });
        proof {
            assert(self@ =~= with_edge(
                old(self)@,
                Edge { src_op: src_op, dst_op: dst_op, src_idx: src_idx, dst_idx: dst_idx },
            ));
        }
    }

    /// Backend entry point for a fresh input tensor of the given shape.
    pub fn new_input(&mut self, dims: Vec<i32>) -> (h: TensorHandle)
        requires
            old(self).wf(),
            shape_ok(dims@),
        ensures
            final(self).wf(),
            final(self)@ == add_tensor(old(self)@, dims@, false),
            h == TensorHandle::Idx(old(self)@.tensors.len() as usize),
            valid_handle(final(self)@, h),
    {
        self.push_tensor(dims, false)
    }

    /// Backend entry point for a fresh weight tensor of the given shape.
    /// The caller hands the backend ownership of the dimension buffer and
    /// of a value buffer with one entry per element; the model records the
    /// shape, values never influence metadata.
    pub fn new_weight(&mut self, dims: Vec<i32>) -> (h: TensorHandle)
        requires
            old(self).wf(),
            shape_ok(dims@),
        ensures
            final(self).wf(),
            final(self)@ == add_tensor(old(self)@, dims@, false),
            h == TensorHandle::Idx(old(self)@.tensors.len() as usize),
            valid_handle(final(self)@, h),
    {
        self.push_tensor(dims, false)
    }

    /// Backend entry point for the elementwise ops (add and multiply share
    /// one constructor): defined exactly when both operand shapes agree.
    pub fn element(&mut self, a: TensorHandle, b: TensorHandle) -> (r: Option<TensorHandle>)
        requires
            old(self).wf(),
            valid_handle(old(self)@, a),
            valid_handle(old(self)@, b),
        ensures
            final(self).wf(),
            match ew_shape(tensor_at(old(self)@, a).shape, tensor_at(old(self)@, b).shape) {
                Some(s) => final(self)@ == add_tensor(old(self)@, s, false) && r == Some(
                    TensorHandle::Idx(old(self)@.tensors.len() as usize),
                ),
                None => final(self)@ == old(self)@ && r is None,
            },
    {
        let sa = self.tensor_shape(a);
        let sb = self.tensor_shape(b);
        if dims_eq(&sa, &sb) {
            Some(self.push_tensor(sa, false))
        } else {
            None
        }
    }

    /// Backend entry point for matrix multiplication with a fused
    /// activation: defined exactly when both operands are rank 2 and the
    /// inner extents agree.
    pub fn matmul(&mut self, a: TensorHandle, b: TensorHandle, activation: i32) -> (r: Option<
        TensorHandle,
    >)
        requires
            old(self).wf(),
            valid_handle(old(self)@, a),
            valid_handle(old(self)@, b),
            valid_activation(activation as int),
        ensures
            final(self).wf(),
            match matmul_shape(tensor_at(old(self)@, a).shape, tensor_at(old(self)@, b).shape) {
                Some(s) => final(self)@ == add_tensor(old(self)@, s, activation != ACTNONE) && r
                    == Some(TensorHandle::Idx(old(self)@.tensors.len() as usize)),
                None => final(self)@ == old(self)@ && r is None,
            },
    {
        let sa = self.tensor_shape(a);
        let sb = self.tensor_shape(b);
        if sa.len() == 2 && sb.len() == 2 && sa[1] == sb[0] {
            let mut s: Vec<i32> = Vec::new();
            s.push(sa[0]);
            s.push(sb[1]);
            proof {
                assert(s@ =~= matmul_shape(
                    tensor_at(old(self)@, a).shape,
                    tensor_at(old(self)@, b).shape,
                ).unwrap());
            }
            Some(self.push_tensor(s, activation != ACTNONE))
        } else {
            None
        }
    }

    /// Backend entry point for 2-d convolution with fused activation.
    pub fn conv2d(
        &mut self,
        inpt: TensorHandle,
        wght: TensorHandle,
        stride_h: i32,
        stride_w: i32,
        pad: i32,
        activation: i32,
    ) -> (r: Option<TensorHandle>)
        requires
            old(self).wf(),
            valid_handle(old(self)@, inpt),
            valid_handle(old(self)@, wght),
            stride_h >= 1,
            stride_w >= 1,
            valid_padding(pad as int),
            valid_activation(activation as int),
        ensures
            final(self).wf(),
            match conv2d_shape(
                tensor_at(old(self)@, inpt).shape,
                tensor_at(old(self)@, wght).shape,
                stride_h,
                stride_w,
                pad,
            ) {
                Some(s) => final(self)@ == add_tensor(old(self)@, s, activation != ACTNONE) && r
                    == Some(TensorHandle::Idx(old(self)@.tensors.len() as usize)),
                None => final(self)@ == old(self)@ && r is None,
            },
    {
        let si = self.tensor_shape(inpt);
        let sw = self.tensor_shape(wght);
        if si.len() == 4 && sw.len() == 4 && sw[2] == si[1] && (pad == PSAME || (si[2] >= sw[0]
            && si[3] >= sw[1])) {
            let out_h = out_dim_exec(si[2], sw[0], stride_h, pad);
            let out_w = out_dim_exec(si[3], sw[1], stride_w, pad);
            let mut s: Vec<i32> = Vec::new();
            s.push(si[0]);
            s.push(sw[3]);
            s.push(out_h);
            s.push(out_w);
            proof {
                assert(s@ =~= conv2d_shape(
                    tensor_at(old(self)@, inpt).shape,
                    tensor_at(old(self)@, wght).shape,
                    stride_h,
                    stride_w,
                    pad,
                ).unwrap());
            }
            Some(self.push_tensor(s, activation != ACTNONE))
        } else {
            None
        }
    }

    /// Backend entry point for relu; the in-place flag is forwarded to the
    /// backend and does not change the reported metadata.
    pub fn relu(&mut self, t: TensorHandle, inplace: bool) -> (h: TensorHandle)
        requires
            old(self).wf(),
            valid_handle(old(self)@, t),
        ensures
            final(self).wf(),
            final(self)@ == add_tensor(old(self)@, tensor_at(old(self)@, t).shape, true),
            h == TensorHandle::Idx(old(self)@.tensors.len() as usize),
    {
        let s = self.tensor_shape(t);
        self.push_tensor(s, true)
    }

    /// Backend entry point for tanh; see [`Graph::relu`].
    pub fn tanh(&mut self, t: TensorHandle, inplace: bool) -> (h: TensorHandle)
        requires
            old(self).wf(),
            valid_handle(old(self)@, t),
        ensures
            final(self).wf(),
            final(self)@ == add_tensor(old(self)@, tensor_at(old(self)@, t).shape, true),
            h == TensorHandle::Idx(old(self)@.tensors.len() as usize),
    {
        let s = self.tensor_shape(t);
        self.push_tensor(s, true)
    }

    /// Backend entry point for sigmoid; see [`Graph::relu`].
    pub fn sigmoid(&mut self, t: TensorHandle, inplace: bool) -> (h: TensorHandle)
        requires
            old(self).wf(),
            valid_handle(old(self)@, t),
        ensures
            final(self).wf(),
            final(self)@ == add_tensor(old(self)@, tensor_at(old(self)@, t).shape, true),
            h == TensorHandle::Idx(old(self)@.tensors.len() as usize),
    {
        let s = self.tensor_shape(t);
        self.push_tensor(s, true)
    }

    /// Backend entry point for 2-d average pooling.
    pub fn pool2d_avg(
        &mut self,
        inpt: TensorHandle,
        kernel_h: i32,
        kernel_w: i32,
        stride_h: i32,
        stride_w: i32,
        pad: i32,
        activation: i32,
    ) -> (r: Option<TensorHandle>)
        requires
            old(self).wf(),
            valid_handle(old(self)@, inpt),
            stride_h >= 1,
            stride_w >= 1,
            valid_padding(pad as int),
            valid_activation(activation as int),
        ensures
            final(self).wf(),
            match pool2d_shape(
                tensor_at(old(self)@, inpt).shape,
                kernel_h,
                kernel_w,
                stride_h,
                stride_w,
                pad,
            ) {
                Some(s) => final(self)@ == add_tensor(old(self)@, s, activation != ACTNONE) && r
                    == Some(TensorHandle::Idx(old(self)@.tensors.len() as usize)),
                None => final(self)@ == old(self)@ && r is None,
            },
    {
        self.pool2d(inpt, kernel_h, kernel_w, stride_h, stride_w, pad, activation)
    }

    /// Backend entry point for 2-d max pooling.
    pub fn pool2d_max(
        &mut self,
        inpt: TensorHandle,
        kernel_h: i32,
        kernel_w: i32,
        stride_h: i32,
        stride_w: i32,
        pad: i32,
        activation: i32,
    ) -> (r: Option<TensorHandle>)
        requires
            old(self).wf(),
            valid_handle(old(self)@, inpt),
            stride_h >= 1,
            stride_w >= 1,
            valid_padding(pad as int),
            valid_activation(activation as int),
        ensures
            final(self).wf(),
            match pool2d_shape(
                tensor_at(old(self)@, inpt).shape,
                kernel_h,
                kernel_w,
                stride_h,
                stride_w,
                pad,
            ) {
                Some(s) => final(self)@ == add_tensor(old(self)@, s, activation != ACTNONE) && r
                    == Some(TensorHandle::Idx(old(self)@.tensors.len() as usize)),
                None => final(self)@ == old(self)@ && r is None,
            },
    {
        self.pool2d(inpt, kernel_h, kernel_w, stride_h, stride_w, pad, activation)
    }

    /// Shared body of the two pooling constructors.
    fn pool2d(
        &mut self,
        inpt: TensorHandle,
        kernel_h: i32,
        kernel_w: i32,
        stride_h: i32,
        stride_w: i32,
        pad: i32,
        activation: i32,
    ) -> (r: Option<TensorHandle>)
        requires
            old(self).wf(),
            valid_handle(old(self)@, inpt),
            stride_h >= 1,
            stride_w >= 1,
            valid_padding(pad as int),
            valid_activation(activation as int),
        ensures
            final(self).wf(),
            match pool2d_shape(
                tensor_at(old(self)@, inpt).shape,
                kernel_h,
                kernel_w,
                stride_h,
                stride_w,
                pad,
            ) {
                Some(s) => final(self)@ == add_tensor(old(self)@, s, activation != ACTNONE) && r
                    == Some(TensorHandle::Idx(old(self)@.tensors.len() as usize)),
                None => final(self)@ == old(self)@ && r is None,
            },
    {
        let si = self.tensor_shape(inpt);
        if si.len() == 4 && kernel_h >= 1 && kernel_w >= 1 && (pad == PSAME || (si[2] >= kernel_h
            && si[3] >= kernel_w)) {
            let out_h = out_dim_exec(si[2], kernel_h, stride_h, pad);
            let out_w = out_dim_exec(si[3], kernel_w, stride_w, pad);
            let mut s: Vec<i32> = Vec::new();
            s.push(si[0]);
            s.push(si[1]);
            s.push(out_h);
            s.push(out_w);
            proof {
                assert(s@ =~= pool2d_shape(
                    tensor_at(old(self)@, inpt).shape,
                    kernel_h,
                    kernel_w,
                    stride_h,
                    stride_w,
                    pad,
                ).unwrap());
            }
            Some(self.push_tensor(s, activation != ACTNONE))
        } else {
            None
        }
    }

    /// Backend entry point for concatenating exactly two tensors.
    pub fn concat(&mut self, axis: i32, a: TensorHandle, b: TensorHandle) -> (r: Option<
        TensorHandle,
    >)
        requires
            old(self).wf(),
            valid_handle(old(self)@, a),
            valid_handle(old(self)@, b),
        ensures
            final(self).wf(),
            match concat_shape(
                axis,
                tensor_at(old(self)@, a).shape,
                tensor_at(old(self)@, b).shape,
            ) {
                Some(s) => final(self)@ == add_tensor(old(self)@, s, false) && r == Some(
                    TensorHandle::Idx(old(self)@.tensors.len() as usize),
                ),
                None => final(self)@ == old(self)@ && r is None,
            },
    {
        let ghost sa = tensor_at(self@, a).shape;
        let ghost sb = tensor_at(self@, b).shape;
        let va = self.tensor_shape(a);
        let vb = self.tensor_shape(b);
        if va.len() != vb.len() || axis < 0 || (axis as usize) >= va.len() {
            return None;
        }
        let n = va.len();
        let mut i: usize = 0;
        let mut same: bool = true;
        while i < n
            invariant
                n == va@.len() == vb@.len(),
                0 <= i <= n,
                0 <= axis < n,
                same == (forall|j: int| 0 <= j < i && j != axis ==> #[trigger] va@[j] == vb@[j]),
            decreases n - i,
        {
            if i != axis as usize && va[i] != vb[i] {
                same = false;
            }
            i = i + 1;
        }
        if !same {
            return None;
        }
        let da = va[axis as usize];
        let db = vb[axis as usize];
        let sum: i64 = (da as i64) + (db as i64);
        if sum > (i32::MAX as i64) {
            return None;
        }
        let mut s = va;
        s.set(axis as usize, sum as i32);
        proof {
            assert(s@ =~= concat_shape(axis, sa, sb).unwrap());
        }
        Some(self.push_tensor(s, false))
    }

    /// Backend entry point for merging a grouped-convolution weight.
    pub fn merge_gconv(&mut self, wght: TensorHandle, count: i32) -> (r: Option<TensorHandle>)
        requires
            old(self).wf(),
            valid_handle(old(self)@, wght),
        ensures
            final(self).wf(),
            match merge_shape(tensor_at(old(self)@, wght).shape, count) {
                Some(s) => final(self)@ == add_tensor(old(self)@, s, false) && r == Some(
                    TensorHandle::Idx(old(self)@.tensors.len() as usize),
                ),
                None => final(self)@ == old(self)@ && r is None,
            },
    {
        let ghost sw = tensor_at(self@, wght).shape;
        let mut s = self.tensor_shape(wght);
        if s.len() != 4 || count < 1 {
            return None;
        }
        let d = s[2];
        proof {
            assert(1 <= (d as int) * (count as int) <= 0x7fff_ffff * 0x7fff_ffff)
                by (nonlinear_arith)
                requires
                    1 <= d <= 0x7fff_ffff,
                    1 <= count <= 0x7fff_ffff,
            ;
        }
        let prod: i64 = (d as i64) * (count as i64);
        if prod > (i32::MAX as i64) {
            return None;
        }
        s.set(2, prod as i32);
        proof {
            assert(s@ =~= merge_shape(sw, count).unwrap());
            assert(shape_ok(s@));
        }
        Some(self.push_tensor(s, false))
    }

    /// Backend entry point for the 2-way split: creates (or reuses) a split
    /// op along `axis` and returns the op together with handles to its two
    /// output descriptors, or the invalid-result sentinel when the axis
    /// extent cannot be split.
    pub fn get_or_create_split(&mut self, inpt: TensorHandle, axis: i32) -> (r: Option<
        (usize, TensorHandle, TensorHandle),
    >)
        requires
            old(self).wf(),
            valid_handle(old(self)@, inpt),
        ensures
            final(self).wf(),
            match split_shapes(axis, tensor_at(old(self)@, inpt).shape) {
                Some(ss) => final(self)@ == add_pair(old(self)@, ss.0, ss.1) && r == Some(
                    (
                        old(self)@.n_ops as usize,
                        TensorHandle::Idx(old(self)@.tensors.len() as usize),
                        TensorHandle::Idx((old(self)@.tensors.len() + 1) as usize),
                    ),
                ),
                None => final(self)@ == old(self)@ && r is None,
            },
    {
        let ghost st = tensor_at(self@, inpt).shape;
        let s = self.tensor_shape(inpt);
        if axis < 0 || (axis as usize) >= s.len() {
            return None;
        }
        let d = s[axis as usize];
        if d < 2 {
            return None;
        }
        let half = d / 2;
        let mut s0 = s.clone();
        s0.set(axis as usize, d - half);
        let mut s1 = s;
        s1.set(axis as usize, half);
        proof {
            let ss = split_shapes(axis, st).unwrap();
            assert(s0@ =~= ss.0);
            assert(s1@ =~= ss.1);
        }
        let op = self.n_ops;
        let (h0, h1) = self.push_pair(s0, s1);
        Some((op, h0, h1))
    }

    /// Backend entry point for enlarging a kernel to a reference kernel.
    pub fn enlarge(&mut self, target: TensorHandle, reference: TensorHandle) -> (r: Option<
        TensorHandle,
    >)
        requires
            old(self).wf(),
            valid_handle(old(self)@, target),
            valid_handle(old(self)@, reference),
        ensures
            final(self).wf(),
            match enlarge_shape(
                tensor_at(old(self)@, target).shape,
                tensor_at(old(self)@, reference).shape,
            ) {
                Some(s) => final(self)@ == add_tensor(old(self)@, s, false) && r == Some(
                    TensorHandle::Idx(old(self)@.tensors.len() as usize),
                ),
                None => final(self)@ == old(self)@ && r is None,
            },
    {
        let ghost sa = tensor_at(self@, target).shape;
        let ghost sb = tensor_at(self@, reference).shape;
        let va = self.tensor_shape(target);
        let vb = self.tensor_shape(reference);
        if va.len() == 4 && vb.len() == 4 && vb[0] >= va[0] && vb[1] >= va[1] {
            let mut s: Vec<i32> = Vec::new();
            s.push(vb[0]);
            s.push(vb[1]);
            s.push(va[2]);
            s.push(va[3]);
            proof {
                assert(s@ =~= enlarge_shape(sa, sb).unwrap());
            }
            Some(self.push_tensor(s, false))
        } else {
            None
        }
    }
}

} // verus!
