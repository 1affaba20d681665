//! The per-class metadata analysis.
//!
//! [`TensorAnalysis::make`] maps each newly inserted node, together with
//! read-only access to the already-computed metadata of its operand
//! classes, to the metadata record of the new class, synthesizing backend
//! ops along the way. Its whole behavior is the mathematical function
//! [`spec_make`], staged as: unimplemented kind, then operand-kind
//! validation against the grammar, then the name parse contract, then the
//! backend's shape rule, then the successful translation.
//!
//! [`TensorAnalysis::merge`] encodes the engine-level invariant that two
//! classes are only ever judged equivalent when their independently
//! computed metadata is already interchangeable: it accepts the existing
//! record unchanged, unconditionally.

use vstd::prelude::*;

use crate::graph::{
    add_pair, add_tensor, concat_shape, conv2d_shape, enlarge_shape, ew_shape, matmul_shape,
    merge_shape, pool2d_shape, split_shapes, tensor_at, valid_handle, with_edge, Edge, Graph,
    GraphV,
};
use crate::lang::{valid_activation, valid_padding, Id, Mdl, ACTNONE};
use crate::metadata::{
    name_record, scalar_record, tensor_pair_record, tensor_record, DataKind, MakeError,
    TensorHandle, ValTnsr, ValTnsrV,
};
use crate::name::{dims_of_name, lemma_valid_name_shape_ok, parse_dims, valid_name};

verus! {

/// The analysis instance: holds exclusive ownership of the one backend
/// graph session for the lifetime of the optimization run.
#[derive(Debug)]
pub struct TensorAnalysis {
    /// The backend graph this analysis synthesizes ops into.
    pub graph: Graph,
}

/// The views of a class store's records.
pub open spec fn store_view(store: Seq<ValTnsr>) -> Seq<ValTnsrV> {
    store.map_values(|d: ValTnsr| d@)
}

/// A record is well formed against session `g`: its tag decides which
/// handle fields are set, and set handles refer to tensors of `g`.
pub open spec fn data_ok(g: GraphV, d: ValTnsrV) -> bool {
    match d.dtype {
        DataKind::Name => d.meta is Null && d.meta_2 is Null,
        DataKind::Scalar => d.meta is Null && d.meta_2 is Null,
        DataKind::Tnsr => valid_handle(g, d.meta) && d.meta_2 is Null,
        DataKind::TnsrTuple => valid_handle(g, d.meta) && valid_handle(g, d.meta_2),
    }
}

/// Every record of the store is well formed against session `g`.
pub open spec fn store_ok(g: GraphV, store: Seq<ValTnsrV>) -> bool {
    forall|i: int| 0 <= i < store.len() ==> data_ok(g, #[trigger] store[i])
}

/// Record well-formedness only constrains handles to lie inside the
/// session's tensor table, so it survives any growth of that table.
pub proof fn lemma_store_ok_grow(g1: GraphV, g2: GraphV, store: Seq<ValTnsrV>)
    requires
        store_ok(g1, store),
        g1.tensors.len() <= g2.tensors.len(),
    ensures
        store_ok(g2, store),
{
    assert forall|i: int| 0 <= i < store.len() implies data_ok(g2, #[trigger] store[i]) by {
        assert(data_ok(g1, store[i]));
    }
}

/// The metadata kind of operand class `i`.
pub open spec fn kind_at(store: Seq<ValTnsrV>, i: Id) -> DataKind {
    store[i.0 as int].dtype
}

/// The scalar value of operand class `i`.
pub open spec fn val_at(store: Seq<ValTnsrV>, i: Id) -> int {
    store[i.0 as int].val
}

/// The tensor handle of operand class `i`.
pub open spec fn meta_at(store: Seq<ValTnsrV>, i: Id) -> TensorHandle {
    store[i.0 as int].meta
}

/// The name string of operand class `i`.
pub open spec fn name_at(store: Seq<ValTnsrV>, i: Id) -> Seq<char> {
    store[i.0 as int].name
}

/// The shape of the backend tensor behind operand class `i`.
pub open spec fn shape_at(g: GraphV, store: Seq<ValTnsrV>, i: Id) -> Seq<i32> {
    tensor_at(g, meta_at(store, i)).shape
}

/// Every operand class reference of `n` lies inside a store of length
/// `len`. The enclosing engine only hands the analysis nodes whose
/// operands' metadata it has already computed.
pub open spec fn node_ids_ok(n: Mdl, len: int) -> bool {
    match n {
        Mdl::Input(a) => a.0 < len,
        Mdl::Weight(a) => a.0 < len,
        Mdl::Ewadd(a, b) => a.0 < len && b.0 < len,
        Mdl::Ewmul(a, b) => a.0 < len && b.0 < len,
        Mdl::Smul(a, b) => a.0 < len && b.0 < len,
        Mdl::Transpose(a) => a.0 < len,
        Mdl::Matmul(act, a, b) => act.0 < len && a.0 < len && b.0 < len,
        Mdl::Conv2d(sh, sw, p, act, i, w) => sh.0 < len && sw.0 < len && p.0 < len && act.0 < len
            && i.0 < len && w.0 < len,
        Mdl::Enlarge(a, b) => a.0 < len && b.0 < len,
        Mdl::Relu(a) => a.0 < len,
        Mdl::Tanh(a) => a.0 < len,
        Mdl::Sigmoid(a) => a.0 < len,
        Mdl::Poolavg(i, kh, kw, sh, sw, p, act) => i.0 < len && kh.0 < len && kw.0 < len && sh.0
            < len && sw.0 < len && p.0 < len && act.0 < len,
        Mdl::Poolmax(i, kh, kw, sh, sw, p, act) => i.0 < len && kh.0 < len && kw.0 < len && sh.0
            < len && sw.0 < len && p.0 < len && act.0 < len,
        Mdl::Concat(axis, nd, a, b) => axis.0 < len && nd.0 < len && a.0 < len && b.0 < len,
        Mdl::Split0(a) => a.0 < len,
        Mdl::Split1(a) => a.0 < len,
        Mdl::Split(axis, a) => axis.0 < len && a.0 < len,
        Mdl::Cpool(a, b) => a.0 < len && b.0 < len,
        Mdl::Iconv(a, b) => a.0 < len && b.0 < len,
        Mdl::Imatmul => true,
        Mdl::Iewmul => true,
        Mdl::Merge(w, c) => w.0 < len && c.0 < len,
        Mdl::Num(_) => true,
        Mdl::Var(_) => true,
    }
}

/// Node kinds with a defined metadata translation. The others are part of
/// the grammar for rule authors but reaching the analysis with one is a
/// development error.
pub open spec fn implemented_kind(n: Mdl) -> bool {
    match n {
        Mdl::Smul(_, _) => false,
        Mdl::Transpose(_) => false,
        Mdl::Cpool(_, _) => false,
        Mdl::Iconv(_, _) => false,
        Mdl::Imatmul => false,
        Mdl::Iewmul => false,
        _ => true,
    }
}

/// The grammar's operand-kind contract for `n`: each position carries the
/// demanded metadata kind, and scalar positions that encode a padding or
/// activation mode carry a legal encoding.
pub open spec fn grammar_ok(store: Seq<ValTnsrV>, n: Mdl) -> bool {
    match n {
        Mdl::Input(a) => kind_at(store, a) is Name,
        Mdl::Weight(a) => kind_at(store, a) is Name,
        Mdl::Ewadd(a, b) => kind_at(store, a) is Tnsr && kind_at(store, b) is Tnsr,
        Mdl::Ewmul(a, b) => kind_at(store, a) is Tnsr && kind_at(store, b) is Tnsr,
        Mdl::Matmul(act, a, b) => kind_at(store, act) is Scalar && kind_at(store, a) is Tnsr
            && kind_at(store, b) is Tnsr && valid_activation(val_at(store, act)),
        Mdl::Conv2d(sh, sw, p, act, i, w) => kind_at(store, sh) is Scalar && kind_at(store, sw)
            is Scalar && kind_at(store, p) is Scalar && kind_at(store, act) is Scalar && kind_at(
            store,
            i,
        ) is Tnsr && kind_at(store, w) is Tnsr && valid_padding(val_at(store, p))
            && valid_activation(val_at(store, act)),
        Mdl::Enlarge(a, b) => kind_at(store, a) is Tnsr && kind_at(store, b) is Tnsr,
        Mdl::Relu(a) => kind_at(store, a) is Tnsr,
        Mdl::Tanh(a) => kind_at(store, a) is Tnsr,
        Mdl::Sigmoid(a) => kind_at(store, a) is Tnsr,
        Mdl::Poolavg(i, kh, kw, sh, sw, p, act) => kind_at(store, i) is Tnsr && kind_at(store, kh)
            is Scalar && kind_at(store, kw) is Scalar && kind_at(store, sh) is Scalar && kind_at(
            store,
            sw,
        ) is Scalar && kind_at(store, p) is Scalar && kind_at(store, act) is Scalar
            && valid_padding(val_at(store, p)) && valid_activation(val_at(store, act)),
        Mdl::Poolmax(i, kh, kw, sh, sw, p, act) => kind_at(store, i) is Tnsr && kind_at(store, kh)
            is Scalar && kind_at(store, kw) is Scalar && kind_at(store, sh) is Scalar && kind_at(
            store,
            sw,
        ) is Scalar && kind_at(store, p) is Scalar && kind_at(store, act) is Scalar
            && valid_padding(val_at(store, p)) && valid_activation(val_at(store, act)),
        Mdl::Concat(axis, nd, a, b) => kind_at(store, axis) is Scalar && kind_at(store, nd)
            is Scalar && kind_at(store, a) is Tnsr && kind_at(store, b) is Tnsr,
        Mdl::Split0(a) => kind_at(store, a) is TnsrTuple,
        Mdl::Split1(a) => kind_at(store, a) is TnsrTuple,
        Mdl::Split(axis, a) => kind_at(store, axis) is Scalar && kind_at(store, a) is Tnsr,
        Mdl::Merge(w, c) => kind_at(store, w) is Tnsr && kind_at(store, c) is Scalar,
        _ => true,
    }
}

/// The name parse contract: `Input` and `Weight` demand a well-formed
/// `identifier@dims` operand; no other kind reads a name.
pub open spec fn names_ok(store: Seq<ValTnsrV>, n: Mdl) -> bool {
    match n {
        Mdl::Input(a) => valid_name(name_at(store, a)),
        Mdl::Weight(a) => valid_name(name_at(store, a)),
        _ => true,
    }
}

/// The backend accepts the translated call: its shape rule applies to the
/// operands. Kinds that make no fallible backend call always pass.
pub open spec fn backend_ok(g: GraphV, store: Seq<ValTnsrV>, n: Mdl) -> bool {
    match n {
        Mdl::Ewadd(a, b) => ew_shape(shape_at(g, store, a), shape_at(g, store, b)) is Some,
        Mdl::Ewmul(a, b) => ew_shape(shape_at(g, store, a), shape_at(g, store, b)) is Some,
        Mdl::Matmul(act, a, b) => matmul_shape(shape_at(g, store, a), shape_at(g, store, b))
            is Some,
        Mdl::Conv2d(sh, sw, p, act, i, w) => conv2d_shape(
            shape_at(g, store, i),
            shape_at(g, store, w),
            val_at(store, sh) as i32,
            val_at(store, sw) as i32,
            val_at(store, p) as i32,
        ) is Some,
        Mdl::Enlarge(a, b) => enlarge_shape(shape_at(g, store, a), shape_at(g, store, b)) is Some,
        Mdl::Poolavg(i, kh, kw, sh, sw, p, act) => pool2d_shape(
            shape_at(g, store, i),
            val_at(store, kh) as i32,
            val_at(store, kw) as i32,
            val_at(store, sh) as i32,
            val_at(store, sw) as i32,
            val_at(store, p) as i32,
        ) is Some,
        Mdl::Poolmax(i, kh, kw, sh, sw, p, act) => pool2d_shape(
            shape_at(g, store, i),
            val_at(store, kh) as i32,
            val_at(store, kw) as i32,
            val_at(store, sh) as i32,
            val_at(store, sw) as i32,
            val_at(store, p) as i32,
        ) is Some,
        Mdl::Concat(axis, nd, a, b) => concat_shape(
            val_at(store, axis) as i32,
            shape_at(g, store, a),
            shape_at(g, store, b),
        ) is Some,
        Mdl::Split(axis, a) => split_shapes(val_at(store, axis) as i32, shape_at(g, store, a))
            is Some,
        Mdl::Merge(w, c) => merge_shape(shape_at(g, store, w), val_at(store, c) as i32) is Some,
        _ => true,
    }
}

/// The session after the successful translation of `n`, given that all
/// stages of [`spec_make`] passed.
pub open spec fn make_graph(g: GraphV, store: Seq<ValTnsrV>, n: Mdl) -> GraphV {
    match n {
        Mdl::Input(a) => add_tensor(g, dims_of_name(name_at(store, a)), false),
        Mdl::Weight(a) => add_tensor(g, dims_of_name(name_at(store, a)), false),
        Mdl::Ewadd(a, b) => add_tensor(
            g,
            ew_shape(shape_at(g, store, a), shape_at(g, store, b)).unwrap(),
            false,
        ),
        Mdl::Ewmul(a, b) => add_tensor(
            g,
            ew_shape(shape_at(g, store, a), shape_at(g, store, b)).unwrap(),
            false,
        ),
        Mdl::Matmul(act, a, b) => add_tensor(
            g,
            matmul_shape(shape_at(g, store, a), shape_at(g, store, b)).unwrap(),
            val_at(store, act) != ACTNONE as int,
        ),
        Mdl::Conv2d(sh, sw, p, act, i, w) => add_tensor(
            g,
            conv2d_shape(
                shape_at(g, store, i),
                shape_at(g, store, w),
                val_at(store, sh) as i32,
                val_at(store, sw) as i32,
                val_at(store, p) as i32,
            ).unwrap(),
            val_at(store, act) != ACTNONE as int,
        ),
        Mdl::Enlarge(a, b) => add_tensor(
            g,
            enlarge_shape(shape_at(g, store, a), shape_at(g, store, b)).unwrap(),
            false,
        ),
        Mdl::Relu(a) => add_tensor(g, shape_at(g, store, a), true),
        Mdl::Tanh(a) => add_tensor(g, shape_at(g, store, a), true),
        Mdl::Sigmoid(a) => add_tensor(g, shape_at(g, store, a), true),
        Mdl::Poolavg(i, kh, kw, sh, sw, p, act) => add_tensor(
            g,
            pool2d_shape(
                shape_at(g, store, i),
                val_at(store, kh) as i32,
                val_at(store, kw) as i32,
                val_at(store, sh) as i32,
                val_at(store, sw) as i32,
                val_at(store, p) as i32,
            ).unwrap(),
            val_at(store, act) != ACTNONE as int,
        ),
        Mdl::Poolmax(i, kh, kw, sh, sw, p, act) => add_tensor(
            g,
            pool2d_shape(
                shape_at(g, store, i),
                val_at(store, kh) as i32,
                val_at(store, kw) as i32,
                val_at(store, sh) as i32,
                val_at(store, sw) as i32,
                val_at(store, p) as i32,
            ).unwrap(),
            val_at(store, act) != ACTNONE as int,
        ),
        Mdl::Concat(axis, nd, a, b) => add_tensor(
            g,
            concat_shape(
                val_at(store, axis) as i32,
                shape_at(g, store, a),
                shape_at(g, store, b),
            ).unwrap(),
            false,
        ),
        Mdl::Split(axis, a) => {
            let ss = split_shapes(val_at(store, axis) as i32, shape_at(g, store, a)).unwrap();
            let src = tensor_at(g, meta_at(store, a));
            with_edge(
                add_pair(g, ss.0, ss.1),
                Edge {
                    src_op: src.op as usize,
                    dst_op: g.n_ops as usize,
                    src_idx: src.out_idx as usize,
                    dst_idx: 0,
                },
            )
        },
        Mdl::Merge(w, c) => add_tensor(
            g,
            merge_shape(shape_at(g, store, w), val_at(store, c) as i32).unwrap(),
            false,
        ),
        _ => g,
    }
}

/// The metadata record of the successful translation of `n`, given that
/// all stages of [`spec_make`] passed.
pub open spec fn make_value(g: GraphV, store: Seq<ValTnsrV>, n: Mdl) -> ValTnsrV {
    match n {
        Mdl::Num(v) => scalar_record(v as int),
        Mdl::Var(s) => name_record(s@),
        Mdl::Split0(a) => tensor_record(meta_at(store, a)),
        Mdl::Split1(a) => tensor_record(store[a.0 as int].meta_2),
        Mdl::Split(axis, a) => tensor_pair_record(
            TensorHandle::Idx(g.tensors.len() as usize),
            TensorHandle::Idx((g.tensors.len() + 1) as usize),
        ),
        _ => tensor_record(TensorHandle::Idx(g.tensors.len() as usize)),
    }
}

/// The outcome of one `make` call: the session afterwards and the produced
/// record or the reported defect.
pub ghost struct MakeOut {
    pub graph: GraphV,
    pub res: Result<ValTnsrV, MakeError>,
}

/// The complete behavior of [`TensorAnalysis::make`]: a function of the
/// session state, the operand metadata, and the node alone.
pub open spec fn spec_make(g: GraphV, store: Seq<ValTnsrV>, n: Mdl) -> MakeOut {
    if !implemented_kind(n) {
        MakeOut { graph: g, res: Err(MakeError::Unimplemented) }
    } else if !grammar_ok(store, n) {
        MakeOut { graph: g, res: Err(MakeError::GrammarViolation) }
    } else if !names_ok(store, n) {
        MakeOut { graph: g, res: Err(MakeError::MalformedName) }
    } else if !backend_ok(g, store, n) {
        MakeOut { graph: g, res: Err(MakeError::BackendRejection) }
    } else {
        MakeOut { graph: make_graph(g, store, n), res: Ok(make_value(g, store, n)) }
    }
}

/// The view of a `make` result.
pub open spec fn res_view(r: Result<ValTnsr, MakeError>) -> Result<ValTnsrV, MakeError> {
    match r {
        Ok(v) => Ok(v@),
        Err(e) => Err(e),
    }
}

impl TensorAnalysis {
    /// The analysis invariant: its session is well formed.
    pub open spec fn wf(&self) -> bool {
        self.graph.wf()
    }

    /// Merges the metadata of two equivalence classes the engine has
    /// judged equal. Classes are only ever judged equivalent when they
    /// provably compute the same tensor, scalar, or name, so their
    /// independently computed metadata is already interchangeable: the
    /// existing record is kept unchanged, unconditionally.
    pub fn merge(&self, to: &mut ValTnsr, from: ValTnsr) -> (changed: bool)
        ensures
            *final(to) == *old(to),
            changed == false,
    {
        false
    }

    /// The post-merge hook: metadata is immutable after creation, so a
    /// change of an equivalence class's member set requires no refresh,
    /// and the session is left untouched.
    pub fn modify(&mut self, id: Id)
        ensures
            *final(self) == *old(self),
    {
    }

    /// Constructs the metadata for a newly inserted node from the
    /// already-computed metadata of its operand classes, synthesizing the
    /// node's op in the backend session. Behaves exactly as [`spec_make`]:
    /// leaves pass through, operand kinds are validated against the
    /// grammar before any use, `Input`/`Weight` names must parse, and the
    /// backend's shape rule decides the rest.
    pub fn make(&mut self, store: &Vec<ValTnsr>, enode: &Mdl) -> (r: Result<ValTnsr, MakeError>)
        requires
            old(self).wf(),
            store_ok(old(self).graph@, store_view(store@)),
            node_ids_ok(*enode, store@.len() as int),
        ensures
            final(self).wf(),
            final(self).graph@ == spec_make(old(self).graph@, store_view(store@), *enode).graph,
            res_view(r) == spec_make(old(self).graph@, store_view(store@), *enode).res,
            store_ok(final(self).graph@, store_view(store@)),
            r matches Ok(v) ==> data_ok(final(self).graph@, v@),
    {
        match enode {
            Mdl::Num(n) => Ok(ValTnsr::scalar(*n)),
            Mdl::Var(s) => Ok(ValTnsr::symbol(s.clone())),
            Mdl::Input(a) => self.mk_input(store, *a),
            Mdl::Weight(a) => self.mk_weight(store, *a),
            Mdl::Ewadd(a, b) => self.mk_ewadd(store, *a, *b),
            Mdl::Ewmul(a, b) => self.mk_ewmul(store, *a, *b),
            Mdl::Matmul(act, a, b) => self.mk_matmul(store, *act, *a, *b),
            Mdl::Conv2d(sh, sw, p, act, i, w) => self.mk_conv2d(store, *sh, *sw, *p, *act, *i, *w),
            Mdl::Enlarge(a, b) => self.mk_enlarge(store, *a, *b),
            Mdl::Relu(a) => self.mk_relu(store, *a),
            Mdl::Tanh(a) => self.mk_tanh(store, *a),
            Mdl::Sigmoid(a) => self.mk_sigmoid(store, *a),
            Mdl::Poolavg(i, kh, kw, sh, sw, p, act) => self.mk_poolavg(
                store,
                *i,
                *kh,
                *kw,
                *sh,
                *sw,
                *p,
                *act,
            ),
            Mdl::Poolmax(i, kh, kw, sh, sw, p, act) => self.mk_poolmax(
                store,
                *i,
                *kh,
                *kw,
                *sh,
                *sw,
                *p,
                *act,
            ),
            Mdl::Concat(axis, nd, a, b) => self.mk_concat(store, *axis, *nd, *a, *b),
            Mdl::Split(axis, a) => self.mk_split(store, *axis, *a),
            Mdl::Split0(a) => self.mk_split0(store, *a),
            Mdl::Split1(a) => self.mk_split1(store, *a),
            Mdl::Merge(w, c) => self.mk_merge(store, *w, *c),
            Mdl::Smul(_, _) => Err(MakeError::Unimplemented),
            Mdl::Transpose(_) => Err(MakeError::Unimplemented),
            Mdl::Cpool(_, _) => Err(MakeError::Unimplemented),
            Mdl::Iconv(_, _) => Err(MakeError::Unimplemented),
            Mdl::Imatmul => Err(MakeError::Unimplemented),
            Mdl::Iewmul => Err(MakeError::Unimplemented),
        }
    }

    /// The `Input` arm of [`TensorAnalysis::make`].
    fn mk_input(&mut self, store: &Vec<ValTnsr>, a: Id) -> (r: Result<ValTnsr, MakeError>)
        requires
            old(self).wf(),
            store_ok(old(self).graph@, store_view(store@)),
            node_ids_ok(Mdl::Input(a), store@.len() as int),
        ensures
            final(self).wf(),
            final(self).graph@ == spec_make(old(self).graph@, store_view(store@), Mdl::Input(a)).graph,
            res_view(r) == spec_make(old(self).graph@, store_view(store@), Mdl::Input(a)).res,
            store_ok(final(self).graph@, store_view(store@)),
            r matches Ok(v) ==> data_ok(final(self).graph@, v@),
    {
        let ghost g0 = self.graph@;
        let ghost sv = store_view(store@);
        let x = &store[a.0];
        if !matches!(x.dtype, DataKind::Name) {
            return Err(MakeError::GrammarViolation);
        }
        match parse_dims(x.name.as_str()) {
            None => Err(MakeError::MalformedName),
            Some(dims) => {
                proof {
                    lemma_valid_name_shape_ok(x.name@);
                }
                let h = self.graph.new_input(dims);
                proof {
                    lemma_store_ok_grow(g0, self.graph@, sv);
                }
                Ok(ValTnsr::tensor(h))
            },
        }
    }

    /// The `Weight` arm of [`TensorAnalysis::make`].
    fn mk_weight(&mut self, store: &Vec<ValTnsr>, a: Id) -> (r: Result<ValTnsr, MakeError>)
        requires
            old(self).wf(),
            store_ok(old(self).graph@, store_view(store@)),
            node_ids_ok(Mdl::Weight(a), store@.len() as int),
        ensures
            final(self).wf(),
            final(self).graph@ == spec_make(old(self).graph@, store_view(store@), Mdl::Weight(a)).graph,
            res_view(r) == spec_make(old(self).graph@, store_view(store@), Mdl::Weight(a)).res,
            store_ok(final(self).graph@, store_view(store@)),
            r matches Ok(v) ==> data_ok(final(self).graph@, v@),
    {
        let ghost g0 = self.graph@;
        let ghost sv = store_view(store@);
        let x = &store[a.0];
        if !matches!(x.dtype, DataKind::Name) {
            return Err(MakeError::GrammarViolation);
        }
        match parse_dims(x.name.as_str()) {
            None => Err(MakeError::MalformedName),
            Some(dims) => {
                proof {
                    lemma_valid_name_shape_ok(x.name@);
                }
                let h = self.graph.new_weight(dims);
                proof {
                    lemma_store_ok_grow(g0, self.graph@, sv);
                }
                Ok(ValTnsr::tensor(h))
            },
        }
    }

    /// The `Ewadd` arm of [`TensorAnalysis::make`].
    fn mk_ewadd(&mut self, store: &Vec<ValTnsr>, a: Id, b: Id) -> (r: Result<ValTnsr, MakeError>)
        requires
            old(self).wf(),
            store_ok(old(self).graph@, store_view(store@)),
            node_ids_ok(Mdl::Ewadd(a, b), store@.len() as int),
        ensures
            final(self).wf(),
            final(self).graph@ == spec_make(old(self).graph@, store_view(store@), Mdl::Ewadd(a, b)).graph,
            res_view(r) == spec_make(old(self).graph@, store_view(store@), Mdl::Ewadd(a, b)).res,
            store_ok(final(self).graph@, store_view(store@)),
            r matches Ok(v) ==> data_ok(final(self).graph@, v@),
    {
        let ghost g0 = self.graph@;
        let ghost sv = store_view(store@);
        let xa = &store[a.0];
        let xb = &store[b.0];
        if !(matches!(xa.dtype, DataKind::Tnsr) && matches!(xb.dtype, DataKind::Tnsr)) {
            return Err(MakeError::GrammarViolation);
        }
        match self.graph.element(xa.meta, xb.meta) {
            Some(h) => {
                proof {
                    lemma_store_ok_grow(g0, self.graph@, sv);
                }
                Ok(ValTnsr::tensor(h))
            },
            None => Err(MakeError::BackendRejection),
        }
    }

    /// The `Ewmul` arm of [`TensorAnalysis::make`].
    fn mk_ewmul(&mut self, store: &Vec<ValTnsr>, a: Id, b: Id) -> (r: Result<ValTnsr, MakeError>)
        requires
            old(self).wf(),
            store_ok(old(self).graph@, store_view(store@)),
            node_ids_ok(Mdl::Ewmul(a, b), store@.len() as int),
        ensures
            final(self).wf(),
            final(self).graph@ == spec_make(old(self).graph@, store_view(store@), Mdl::Ewmul(a, b)).graph,
            res_view(r) == spec_make(old(self).graph@, store_view(store@), Mdl::Ewmul(a, b)).res,
            store_ok(final(self).graph@, store_view(store@)),
            r matches Ok(v) ==> data_ok(final(self).graph@, v@),
    {
        let ghost g0 = self.graph@;
        let ghost sv = store_view(store@);
        let xa = &store[a.0];
        let xb = &store[b.0];
        if !(matches!(xa.dtype, DataKind::Tnsr) && matches!(xb.dtype, DataKind::Tnsr)) {
            return Err(MakeError::GrammarViolation);
        }
        match self.graph.element(xa.meta, xb.meta) {
            Some(h) => {
                proof {
                    lemma_store_ok_grow(g0, self.graph@, sv);
                }
                Ok(ValTnsr::tensor(h))
            },
            None => Err(MakeError::BackendRejection),
        }
    }

    /// The `Matmul` arm of [`TensorAnalysis::make`].
    fn mk_matmul(&mut self, store: &Vec<ValTnsr>, act: Id, a: Id, b: Id) -> (r: Result<
        ValTnsr,
        MakeError,
    >)
        requires
            old(self).wf(),
            store_ok(old(self).graph@, store_view(store@)),
            node_ids_ok(Mdl::Matmul(act, a, b), store@.len() as int),
        ensures
            final(self).wf(),
            final(self).graph@ == spec_make(
                old(self).graph@,
                store_view(store@),
                Mdl::Matmul(act, a, b),
            ).graph,
            res_view(r) == spec_make(
                old(self).graph@,
                store_view(store@),
                Mdl::Matmul(act, a, b),
            ).res,
            store_ok(final(self).graph@, store_view(store@)),
            r matches Ok(v) ==> data_ok(final(self).graph@, v@),
    {
        let ghost g0 = self.graph@;
        let ghost sv = store_view(store@);
        let xact = &store[act.0];
        let xa = &store[a.0];
        let xb = &store[b.0];
        if !(matches!(xact.dtype, DataKind::Scalar) && matches!(xa.dtype, DataKind::Tnsr)
            && matches!(xb.dtype, DataKind::Tnsr) && crate::lang::is_valid_activation(xact.val)) {
            return Err(MakeError::GrammarViolation);
        }
        match self.graph.matmul(xa.meta, xb.meta, xact.val) {
            Some(h) => {
                proof {
                    lemma_store_ok_grow(g0, self.graph@, sv);
                }
                Ok(ValTnsr::tensor(h))
            },
            None => Err(MakeError::BackendRejection),
        }
    }

    /// The `Conv2d` arm of [`TensorAnalysis::make`].
    fn mk_conv2d(
        &mut self,
        store: &Vec<ValTnsr>,
        sh: Id,
        sw: Id,
        p: Id,
        act: Id,
        i: Id,
        w: Id,
    ) -> (r: Result<ValTnsr, MakeError>)
        requires
            old(self).wf(),
            store_ok(old(self).graph@, store_view(store@)),
            node_ids_ok(Mdl::Conv2d(sh, sw, p, act, i, w), store@.len() as int),
        ensures
            final(self).wf(),
            final(self).graph@ == spec_make(
                old(self).graph@,
                store_view(store@),
                Mdl::Conv2d(sh, sw, p, act, i, w),
            ).graph,
            res_view(r) == spec_make(
                old(self).graph@,
                store_view(store@),
                Mdl::Conv2d(sh, sw, p, act, i, w),
            ).res,
            store_ok(final(self).graph@, store_view(store@)),
            r matches Ok(v) ==> data_ok(final(self).graph@, v@),
    {
        let ghost g0 = self.graph@;
        let ghost sv = store_view(store@);
        let xsh = &store[sh.0];
        let xsw = &store[sw.0];
        let xp = &store[p.0];
        let xact = &store[act.0];
        let xi = &store[i.0];
        let xw = &store[w.0];
        if !(matches!(xsh.dtype, DataKind::Scalar) && matches!(xsw.dtype, DataKind::Scalar)
            && matches!(xp.dtype, DataKind::Scalar) && matches!(xact.dtype, DataKind::Scalar)
            && matches!(xi.dtype, DataKind::Tnsr) && matches!(xw.dtype, DataKind::Tnsr)
            && crate::lang::is_valid_padding(xp.val) && crate::lang::is_valid_activation(
            xact.val,
        )) {
            return Err(MakeError::GrammarViolation);
        }
        if xsh.val < 1 || xsw.val < 1 {
            return Err(MakeError::BackendRejection);
        }
        match self.graph.conv2d(xi.meta, xw.meta, xsh.val, xsw.val, xp.val, xact.val) {
            Some(h) => {
                proof {
                    lemma_store_ok_grow(g0, self.graph@, sv);
                }
                Ok(ValTnsr::tensor(h))
            },
            None => Err(MakeError::BackendRejection),
        }
    }

    /// The `Enlarge` arm of [`TensorAnalysis::make`].
    fn mk_enlarge(&mut self, store: &Vec<ValTnsr>, a: Id, b: Id) -> (r: Result<ValTnsr, MakeError>)
        requires
            old(self).wf(),
            store_ok(old(self).graph@, store_view(store@)),
            node_ids_ok(Mdl::Enlarge(a, b), store@.len() as int),
        ensures
            final(self).wf(),
            final(self).graph@ == spec_make(
                old(self).graph@,
                store_view(store@),
                Mdl::Enlarge(a, b),
            ).graph,
            res_view(r) == spec_make(old(self).graph@, store_view(store@), Mdl::Enlarge(a, b)).res,
            store_ok(final(self).graph@, store_view(store@)),
            r matches Ok(v) ==> data_ok(final(self).graph@, v@),
    {
        let ghost g0 = self.graph@;
        let ghost sv = store_view(store@);
        let xa = &store[a.0];
        let xb = &store[b.0];
        if !(matches!(xa.dtype, DataKind::Tnsr) && matches!(xb.dtype, DataKind::Tnsr)) {
            return Err(MakeError::GrammarViolation);
        }
        match self.graph.enlarge(xa.meta, xb.meta) {
            Some(h) => {
                proof {
                    lemma_store_ok_grow(g0, self.graph@, sv);
                }
                Ok(ValTnsr::tensor(h))
            },
            None => Err(MakeError::BackendRejection),
        }
    }

    /// The `Relu` arm of [`TensorAnalysis::make`].
    fn mk_relu(&mut self, store: &Vec<ValTnsr>, a: Id) -> (r: Result<ValTnsr, MakeError>)
        requires
            old(self).wf(),
            store_ok(old(self).graph@, store_view(store@)),
            node_ids_ok(Mdl::Relu(a), store@.len() as int),
        ensures
            final(self).wf(),
            final(self).graph@ == spec_make(old(self).graph@, store_view(store@), Mdl::Relu(a)).graph,
            res_view(r) == spec_make(old(self).graph@, store_view(store@), Mdl::Relu(a)).res,
            store_ok(final(self).graph@, store_view(store@)),
            r matches Ok(v) ==> data_ok(final(self).graph@, v@),
    {
        let ghost g0 = self.graph@;
        let ghost sv = store_view(store@);
        let xa = &store[a.0];
        if !matches!(xa.dtype, DataKind::Tnsr) {
            return Err(MakeError::GrammarViolation);
        }
        let h = self.graph.relu(xa.meta, true);
        proof {
            lemma_store_ok_grow(g0, self.graph@, sv);
        }
        Ok(ValTnsr::tensor(h))
    }

    /// The `Tanh` arm of [`TensorAnalysis::make`].
    fn mk_tanh(&mut self, store: &Vec<ValTnsr>, a: Id) -> (r: Result<ValTnsr, MakeError>)
        requires
            old(self).wf(),
            store_ok(old(self).graph@, store_view(store@)),
            node_ids_ok(Mdl::Tanh(a), store@.len() as int),
        ensures
            final(self).wf(),
            final(self).graph@ == spec_make(old(self).graph@, store_view(store@), Mdl::Tanh(a)).graph,
            res_view(r) == spec_make(old(self).graph@, store_view(store@), Mdl::Tanh(a)).res,
            store_ok(final(self).graph@, store_view(store@)),
            r matches Ok(v) ==> data_ok(final(self).graph@, v@),
    {
        let ghost g0 = self.graph@;
        let ghost sv = store_view(store@);
        let xa = &store[a.0];
        if !matches!(xa.dtype, DataKind::Tnsr) {
            return Err(MakeError::GrammarViolation);
        }
        let h = self.graph.tanh(xa.meta, true);
        proof {
            lemma_store_ok_grow(g0, self.graph@, sv);
        }
        Ok(ValTnsr::tensor(h))
    }

    /// The `Sigmoid` arm of [`TensorAnalysis::make`].
    fn mk_sigmoid(&mut self, store: &Vec<ValTnsr>, a: Id) -> (r: Result<ValTnsr, MakeError>)
        requires
            old(self).wf(),
            store_ok(old(self).graph@, store_view(store@)),
            node_ids_ok(Mdl::Sigmoid(a), store@.len() as int),
        ensures
            final(self).wf(),
            final(self).graph@ == spec_make(old(self).graph@, store_view(store@), Mdl::Sigmoid(a)).graph,
            res_view(r) == spec_make(old(self).graph@, store_view(store@), Mdl::Sigmoid(a)).res,
            store_ok(final(self).graph@, store_view(store@)),
            r matches Ok(v) ==> data_ok(final(self).graph@, v@),
    {
        let ghost g0 = self.graph@;
        let ghost sv = store_view(store@);
        let xa = &store[a.0];
        if !matches!(xa.dtype, DataKind::Tnsr) {
            return Err(MakeError::GrammarViolation);
        }
        let h = self.graph.sigmoid(xa.meta, true);
        proof {
            lemma_store_ok_grow(g0, self.graph@, sv);
        }
        Ok(ValTnsr::tensor(h))
    }

    /// The `Poolavg` arm of [`TensorAnalysis::make`].
    fn mk_poolavg(
        &mut self,
        store: &Vec<ValTnsr>,
        i: Id,
        kh: Id,
        kw: Id,
        sh: Id,
        sw: Id,
        p: Id,
        act: Id,
    ) -> (r: Result<ValTnsr, MakeError>)
        requires
            old(self).wf(),
            store_ok(old(self).graph@, store_view(store@)),
            node_ids_ok(Mdl::Poolavg(i, kh, kw, sh, sw, p, act), store@.len() as int),
        ensures
            final(self).wf(),
            final(self).graph@ == spec_make(
                old(self).graph@,
                store_view(store@),
                Mdl::Poolavg(i, kh, kw, sh, sw, p, act),
            ).graph,
            res_view(r) == spec_make(
                old(self).graph@,
                store_view(store@),
                Mdl::Poolavg(i, kh, kw, sh, sw, p, act),
            ).res,
            store_ok(final(self).graph@, store_view(store@)),
            r matches Ok(v) ==> data_ok(final(self).graph@, v@),
    {
        let ghost g0 = self.graph@;
        let ghost sv = store_view(store@);
        let xi = &store[i.0];
        let xkh = &store[kh.0];
        let xkw = &store[kw.0];
        let xsh = &store[sh.0];
        let xsw = &store[sw.0];
        let xp = &store[p.0];
        let xact = &store[act.0];
        if !(matches!(xi.dtype, DataKind::Tnsr) && matches!(xkh.dtype, DataKind::Scalar)
            && matches!(xkw.dtype, DataKind::Scalar) && matches!(xsh.dtype, DataKind::Scalar)
            && matches!(xsw.dtype, DataKind::Scalar) && matches!(xp.dtype, DataKind::Scalar)
            && matches!(xact.dtype, DataKind::Scalar) && crate::lang::is_valid_padding(xp.val)
            && crate::lang::is_valid_activation(xact.val)) {
            return Err(MakeError::GrammarViolation);
        }
        if xsh.val < 1 || xsw.val < 1 {
            return Err(MakeError::BackendRejection);
        }
        match self.graph.pool2d_avg(xi.meta, xkh.val, xkw.val, xsh.val, xsw.val, xp.val, xact.val) {
            Some(h) => {
                proof {
                    lemma_store_ok_grow(g0, self.graph@, sv);
                }
                Ok(ValTnsr::tensor(h))
            },
            None => Err(MakeError::BackendRejection),
        }
    }

    /// The `Poolmax` arm of [`TensorAnalysis::make`].
    fn mk_poolmax(
        &mut self,
        store: &Vec<ValTnsr>,
        i: Id,
        kh: Id,
        kw: Id,
        sh: Id,
        sw: Id,
        p: Id,
        act: Id,
    ) -> (r: Result<ValTnsr, MakeError>)
        requires
            old(self).wf(),
            store_ok(old(self).graph@, store_view(store@)),
            node_ids_ok(Mdl::Poolmax(i, kh, kw, sh, sw, p, act), store@.len() as int),
        ensures
            final(self).wf(),
            final(self).graph@ == spec_make(
                old(self).graph@,
                store_view(store@),
                Mdl::Poolmax(i, kh, kw, sh, sw, p, act),
            ).graph,
            res_view(r) == spec_make(
                old(self).graph@,
                store_view(store@),
                Mdl::Poolmax(i, kh, kw, sh, sw, p, act),
            ).res,
            store_ok(final(self).graph@, store_view(store@)),
            r matches Ok(v) ==> data_ok(final(self).graph@, v@),
    {
        let ghost g0 = self.graph@;
        let ghost sv = store_view(store@);
        let xi = &store[i.0];
        let xkh = &store[kh.0];
        let xkw = &store[kw.0];
        let xsh = &store[sh.0];
        let xsw = &store[sw.0];
        let xp = &store[p.0];
        let xact = &store[act.0];
        if !(matches!(xi.dtype, DataKind::Tnsr) && matches!(xkh.dtype, DataKind::Scalar)
            && matches!(xkw.dtype, DataKind::Scalar) && matches!(xsh.dtype, DataKind::Scalar)
            && matches!(xsw.dtype, DataKind::Scalar) && matches!(xp.dtype, DataKind::Scalar)
            && matches!(xact.dtype, DataKind::Scalar) && crate::lang::is_valid_padding(xp.val)
            && crate::lang::is_valid_activation(xact.val)) {
            return Err(MakeError::GrammarViolation);
        }
        if xsh.val < 1 || xsw.val < 1 {
            return Err(MakeError::BackendRejection);
        }
        match self.graph.pool2d_max(xi.meta, xkh.val, xkw.val, xsh.val, xsw.val, xp.val, xact.val) {
            Some(h) => {
                proof {
                    lemma_store_ok_grow(g0, self.graph@, sv);
                }
                Ok(ValTnsr::tensor(h))
            },
            None => Err(MakeError::BackendRejection),
        }
    }

    /// The `Concat` arm of [`TensorAnalysis::make`].
    fn mk_concat(&mut self, store: &Vec<ValTnsr>, axis: Id, nd: Id, a: Id, b: Id) -> (r: Result<
        ValTnsr,
        MakeError,
    >)
        requires
            old(self).wf(),
            store_ok(old(self).graph@, store_view(store@)),
            node_ids_ok(Mdl::Concat(axis, nd, a, b), store@.len() as int),
        ensures
            final(self).wf(),
            final(self).graph@ == spec_make(
                old(self).graph@,
                store_view(store@),
                Mdl::Concat(axis, nd, a, b),
            ).graph,
            res_view(r) == spec_make(
                old(self).graph@,
                store_view(store@),
                Mdl::Concat(axis, nd, a, b),
            ).res,
            store_ok(final(self).graph@, store_view(store@)),
            r matches Ok(v) ==> data_ok(final(self).graph@, v@),
    {
        let ghost g0 = self.graph@;
        let ghost sv = store_view(store@);
        let xaxis = &store[axis.0];
        let xnd = &store[nd.0];
        let xa = &store[a.0];
        let xb = &store[b.0];
        if !(matches!(xaxis.dtype, DataKind::Scalar) && matches!(xnd.dtype, DataKind::Scalar)
            && matches!(xa.dtype, DataKind::Tnsr) && matches!(xb.dtype, DataKind::Tnsr)) {
            return Err(MakeError::GrammarViolation);
        }
        match self.graph.concat(xaxis.val, xa.meta, xb.meta) {
            Some(h) => {
                proof {
                    lemma_store_ok_grow(g0, self.graph@, sv);
                }
                Ok(ValTnsr::tensor(h))
            },
            None => Err(MakeError::BackendRejection),
        }
    }

    /// The `Split` arm of [`TensorAnalysis::make`]: the only kind that
    /// produces `TnsrTuple` metadata, and the only one that registers an
    /// edge from the producer of its input to the new split op.
    fn mk_split(&mut self, store: &Vec<ValTnsr>, axis: Id, a: Id) -> (r: Result<ValTnsr, MakeError>)
        requires
            old(self).wf(),
            store_ok(old(self).graph@, store_view(store@)),
            node_ids_ok(Mdl::Split(axis, a), store@.len() as int),
        ensures
            final(self).wf(),
            final(self).graph@ == spec_make(
                old(self).graph@,
                store_view(store@),
                Mdl::Split(axis, a),
            ).graph,
            res_view(r) == spec_make(old(self).graph@, store_view(store@), Mdl::Split(axis, a)).res,
            store_ok(final(self).graph@, store_view(store@)),
            r matches Ok(v) ==> data_ok(final(self).graph@, v@),
    {
        let ghost g0 = self.graph@;
        let ghost sv = store_view(store@);
        let xaxis = &store[axis.0];
        let xa = &store[a.0];
        if !(matches!(xaxis.dtype, DataKind::Scalar) && matches!(xa.dtype, DataKind::Tnsr)) {
            return Err(MakeError::GrammarViolation);
        }
        let src = self.graph.tensor_src(xa.meta);
        match self.graph.get_or_create_split(xa.meta, xaxis.val) {
            Some((op, h0, h1)) => {
                self.graph.add_edge(src.0, op, src.1, 0);
                proof {
                    lemma_store_ok_grow(g0, self.graph@, sv);
                }
                Ok(ValTnsr::tensor_pair(h0, h1))
            },
            None => Err(MakeError::BackendRejection),
        }
    }

    /// The `Split0` arm of [`TensorAnalysis::make`]: copies the first
    /// stored handle out of a split pair; no backend call.
    fn mk_split0(&mut self, store: &Vec<ValTnsr>, a: Id) -> (r: Result<ValTnsr, MakeError>)
        requires
            old(self).wf(),
            store_ok(old(self).graph@, store_view(store@)),
            node_ids_ok(Mdl::Split0(a), store@.len() as int),
        ensures
            final(self).wf(),
            final(self).graph@ == spec_make(old(self).graph@, store_view(store@), Mdl::Split0(a)).graph,
            res_view(r) == spec_make(old(self).graph@, store_view(store@), Mdl::Split0(a)).res,
            store_ok(final(self).graph@, store_view(store@)),
            r matches Ok(v) ==> data_ok(final(self).graph@, v@),
    {
        let xa = &store[a.0];
        if !matches!(xa.dtype, DataKind::TnsrTuple) {
            return Err(MakeError::GrammarViolation);
        }
        Ok(ValTnsr::tensor(xa.meta))
    }

    /// The `Split1` arm of [`TensorAnalysis::make`]: copies the second
    /// stored handle out of a split pair; no backend call.
    fn mk_split1(&mut self, store: &Vec<ValTnsr>, a: Id) -> (r: Result<ValTnsr, MakeError>)
        requires
            old(self).wf(),
            store_ok(old(self).graph@, store_view(store@)),
            node_ids_ok(Mdl::Split1(a), store@.len() as int),
        ensures
            final(self).wf(),
            final(self).graph@ == spec_make(old(self).graph@, store_view(store@), Mdl::Split1(a)).graph,
            res_view(r) == spec_make(old(self).graph@, store_view(store@), Mdl::Split1(a)).res,
            store_ok(final(self).graph@, store_view(store@)),
            r matches Ok(v) ==> data_ok(final(self).graph@, v@),
    {
        let xa = &store[a.0];
        if !matches!(xa.dtype, DataKind::TnsrTuple) {
            return Err(MakeError::GrammarViolation);
        }
        Ok(ValTnsr::tensor(xa.meta_2))
    }

    /// The `Merge` arm of [`TensorAnalysis::make`].
    fn mk_merge(&mut self, store: &Vec<ValTnsr>, w: Id, c: Id) -> (r: Result<ValTnsr, MakeError>)
        requires
            old(self).wf(),
            store_ok(old(self).graph@, store_view(store@)),
            node_ids_ok(Mdl::Merge(w, c), store@.len() as int),
        ensures
            final(self).wf(),
            final(self).graph@ == spec_make(old(self).graph@, store_view(store@), Mdl::Merge(w, c)).graph,
            res_view(r) == spec_make(old(self).graph@, store_view(store@), Mdl::Merge(w, c)).res,
            store_ok(final(self).graph@, store_view(store@)),
            r matches Ok(v) ==> data_ok(final(self).graph@, v@),
    {
        let ghost g0 = self.graph@;
        let ghost sv = store_view(store@);
        let xw = &store[w.0];
        let xc = &store[c.0];
        if !(matches!(xw.dtype, DataKind::Tnsr) && matches!(xc.dtype, DataKind::Scalar)) {
            return Err(MakeError::GrammarViolation);
        }
        match self.graph.merge_gconv(xw.meta, xc.val) {
            Some(h) => {
                proof {
                    lemma_store_ok_grow(g0, self.graph@, sv);
                }
                Ok(ValTnsr::tensor(h))
            },
            None => Err(MakeError::BackendRejection),
        }
    }
}

impl Default for TensorAnalysis {
    /// Opens a fresh analysis owning one empty backend graph session.
    fn default() -> (r: Self)
        ensures
            r.wf(),
            r.graph@.tensors.len() == 0,
            r.graph@.edges.len() == 0,
            r.graph@.n_ops == 0,
    {
        TensorAnalysis { graph: Graph::new() }
    }
}

/// For every `Input`/`Weight` name of the form `id@d1_..._dn` (at least
/// rank 1, every dimension positive), the produced record is a `Tensor`
/// whose backend-reported shape is exactly `(d1, ..., dn)`.
pub proof fn lemma_input_weight_shape(g: GraphV, store: Seq<ValTnsrV>, a: Id)
    requires
        g.tensors.len() < usize::MAX,
        node_ids_ok(Mdl::Input(a), store.len() as int),
        kind_at(store, a) is Name,
        valid_name(name_at(store, a)),
    ensures
        ({
            let out_i = spec_make(g, store, Mdl::Input(a));
            let out_w = spec_make(g, store, Mdl::Weight(a));
            let dims = dims_of_name(name_at(store, a));
            &&& out_i.res is Ok
            &&& out_w.res is Ok
            &&& out_i.res.unwrap().dtype is Tnsr
            &&& out_w.res.unwrap().dtype is Tnsr
            &&& dims.len() >= 1
            &&& tensor_at(out_i.graph, out_i.res.unwrap().meta).shape == dims
            &&& tensor_at(out_w.graph, out_w.res.unwrap().meta).shape == dims
        }),
{
    lemma_valid_name_shape_ok(name_at(store, a));
}

/// A node whose operand kinds (or scalar mode encodings) violate the
/// grammar is refused with a grammar violation — deterministically, never
/// by silent coercion — and the session is left untouched; a conforming
/// node is never refused that way.
pub proof fn lemma_mismatch_refused(g: GraphV, store: Seq<ValTnsrV>, n: Mdl)
    requires
        implemented_kind(n),
    ensures
        (spec_make(g, store, n).res == Err::<ValTnsrV, MakeError>(MakeError::GrammarViolation))
            <==> !grammar_ok(store, n),
        !grammar_ok(store, n) ==> spec_make(g, store, n).graph == g,
{
}

/// A `Name` record that fails the `id@dims` parse contract is refused by
/// the kinds that consume it — `Input` and `Weight` — with a malformed
/// name report, and the session is left untouched. No other kind reads it.
pub proof fn lemma_malformed_name_refused(g: GraphV, store: Seq<ValTnsrV>, a: Id)
    requires
        kind_at(store, a) is Name,
        !valid_name(name_at(store, a)),
    ensures
        spec_make(g, store, Mdl::Input(a)).res == Err::<ValTnsrV, MakeError>(
            MakeError::MalformedName,
        ),
        spec_make(g, store, Mdl::Weight(a)).res == Err::<ValTnsrV, MakeError>(
            MakeError::MalformedName,
        ),
        spec_make(g, store, Mdl::Input(a)).graph == g,
        spec_make(g, store, Mdl::Weight(a)).graph == g,
{
}

/// The operand records of `n` are the same in both stores.
pub open spec fn operands_agree(s1: Seq<ValTnsrV>, s2: Seq<ValTnsrV>, n: Mdl) -> bool {
    match n {
        Mdl::Input(a) => s1[a.0 as int] == s2[a.0 as int],
        Mdl::Weight(a) => s1[a.0 as int] == s2[a.0 as int],
        Mdl::Ewadd(a, b) => s1[a.0 as int] == s2[a.0 as int] && s1[b.0 as int] == s2[b.0 as int],
        Mdl::Ewmul(a, b) => s1[a.0 as int] == s2[a.0 as int] && s1[b.0 as int] == s2[b.0 as int],
        Mdl::Smul(a, b) => s1[a.0 as int] == s2[a.0 as int] && s1[b.0 as int] == s2[b.0 as int],
        Mdl::Transpose(a) => s1[a.0 as int] == s2[a.0 as int],
        Mdl::Matmul(act, a, b) => s1[act.0 as int] == s2[act.0 as int] && s1[a.0 as int] == s2[a.0
            as int] && s1[b.0 as int] == s2[b.0 as int],
        Mdl::Conv2d(sh, sw, p, act, i, w) => s1[sh.0 as int] == s2[sh.0 as int] && s1[sw.0 as int]
            == s2[sw.0 as int] && s1[p.0 as int] == s2[p.0 as int] && s1[act.0 as int] == s2[act.0
            as int] && s1[i.0 as int] == s2[i.0 as int] && s1[w.0 as int] == s2[w.0 as int],
        Mdl::Enlarge(a, b) => s1[a.0 as int] == s2[a.0 as int] && s1[b.0 as int] == s2[b.0 as int],
        Mdl::Relu(a) => s1[a.0 as int] == s2[a.0 as int],
        Mdl::Tanh(a) => s1[a.0 as int] == s2[a.0 as int],
        Mdl::Sigmoid(a) => s1[a.0 as int] == s2[a.0 as int],
        Mdl::Poolavg(i, kh, kw, sh, sw, p, act) => s1[i.0 as int] == s2[i.0 as int] && s1[kh.0
            as int] == s2[kh.0 as int] && s1[kw.0 as int] == s2[kw.0 as int] && s1[sh.0 as int]
            == s2[sh.0 as int] && s1[sw.0 as int] == s2[sw.0 as int] && s1[p.0 as int] == s2[p.0
            as int] && s1[act.0 as int] == s2[act.0 as int],
        Mdl::Poolmax(i, kh, kw, sh, sw, p, act) => s1[i.0 as int] == s2[i.0 as int] && s1[kh.0
            as int] == s2[kh.0 as int] && s1[kw.0 as int] == s2[kw.0 as int] && s1[sh.0 as int]
            == s2[sh.0 as int] && s1[sw.0 as int] == s2[sw.0 as int] && s1[p.0 as int] == s2[p.0
            as int] && s1[act.0 as int] == s2[act.0 as int],
        Mdl::Concat(axis, nd, a, b) => s1[axis.0 as int] == s2[axis.0 as int] && s1[nd.0 as int]
            == s2[nd.0 as int] && s1[a.0 as int] == s2[a.0 as int] && s1[b.0 as int] == s2[b.0
            as int],
        Mdl::Split0(a) => s1[a.0 as int] == s2[a.0 as int],
        Mdl::Split1(a) => s1[a.0 as int] == s2[a.0 as int],
        Mdl::Split(axis, a) => s1[axis.0 as int] == s2[axis.0 as int] && s1[a.0 as int] == s2[a.0
            as int],
        Mdl::Cpool(a, b) => s1[a.0 as int] == s2[a.0 as int] && s1[b.0 as int] == s2[b.0 as int],
        Mdl::Iconv(a, b) => s1[a.0 as int] == s2[a.0 as int] && s1[b.0 as int] == s2[b.0 as int],
        Mdl::Imatmul => true,
        Mdl::Iewmul => true,
        Mdl::Merge(w, c) => s1[w.0 as int] == s2[w.0 as int] && s1[c.0 as int] == s2[c.0 as int],
        Mdl::Num(_) => true,
        Mdl::Var(_) => true,
    }
}

/// The merge invariant. The metadata derived for a node is a function of
/// the session state and of the operand records the node references alone:
/// two classes judged equivalent by construction — the same node kind with
/// pairwise equal operand metadata — derive exactly the same record, even
/// from different stores. Merged classes therefore always already carry
/// interchangeable metadata, and [`TensorAnalysis::merge`] never needs to
/// pick a side: it accepts the existing record unchanged.
pub proof fn lemma_equivalent_metadata_interchangeable(
    g: GraphV,
    s1: Seq<ValTnsrV>,
    s2: Seq<ValTnsrV>,
    n: Mdl,
)
    requires
        operands_agree(s1, s2, n),
    ensures
        spec_make(g, s1, n) == spec_make(g, s2, n),
{
}

/// The leaves pass through verbatim: `Num(n)` always yields a `Scalar`
/// carrying `n`, and `Var(s)` always yields a `Name` carrying `s` — for
/// every integer and every string, parseable as a tensor name or not —
/// and neither touches the session.
pub proof fn lemma_leaf_passthrough(g: GraphV, store: Seq<ValTnsrV>, n: i32, s: String)
    ensures
        spec_make(g, store, Mdl::Num(n)).res == Ok::<ValTnsrV, MakeError>(
            scalar_record(n as int),
        ),
        spec_make(g, store, Mdl::Num(n)).graph == g,
        spec_make(g, store, Mdl::Var(s)).res == Ok::<ValTnsrV, MakeError>(name_record(s@)),
        spec_make(g, store, Mdl::Var(s)).graph == g,
{
}

/// The split round trip. A `Split` along a valid axis yields a
/// `TnsrTuple` of two tensors that recombine to the input's shape: their
/// extents along the split axis sum to the input's, every other extent is
/// unchanged. Each projection kind then yields a `Tensor` whose handle is
/// exactly the corresponding one of the pair's two stored handles, with
/// no further backend call.
pub proof fn lemma_split_round_trip(
    g: GraphV,
    store: Seq<ValTnsrV>,
    axis: Id,
    a: Id,
    store2: Seq<ValTnsrV>,
    j: Id,
)
    requires
        g.tensors.len() + 1 < usize::MAX,
        node_ids_ok(Mdl::Split(axis, a), store.len() as int),
        spec_make(g, store, Mdl::Split(axis, a)).res is Ok,
        0 <= j.0 < store2.len(),
        store2[j.0 as int] == spec_make(g, store, Mdl::Split(axis, a)).res.unwrap(),
    ensures
        ({
            let out = spec_make(g, store, Mdl::Split(axis, a));
            let p = out.res.unwrap();
            let g2 = out.graph;
            let av = val_at(store, axis) as i32;
            let t = shape_at(g, store, a);
            let s0 = tensor_at(g2, p.meta).shape;
            let s1 = tensor_at(g2, p.meta_2).shape;
            &&& p.dtype is TnsrTuple
            &&& s0.len() == t.len() && s1.len() == t.len()
            &&& s0[av as int] + s1[av as int] == t[av as int]
            &&& forall|k: int| 0 <= k < t.len() && k != av ==> s0[k] == t[k] && s1[k] == t[k]
            &&& spec_make(g2, store2, Mdl::Split0(j)).res == Ok::<ValTnsrV, MakeError>(
                tensor_record(p.meta),
            )
            &&& spec_make(g2, store2, Mdl::Split1(j)).res == Ok::<ValTnsrV, MakeError>(
                tensor_record(p.meta_2),
            )
            &&& spec_make(g2, store2, Mdl::Split0(j)).graph == g2
            &&& spec_make(g2, store2, Mdl::Split1(j)).graph == g2
        }),
{
    let out = spec_make(g, store, Mdl::Split(axis, a));
    let t = shape_at(g, store, a);
    let av = val_at(store, axis) as i32;
    let ss = split_shapes(av, t).unwrap();
    assert(out.graph.tensors[g.tensors.len() as int].shape == ss.0);
    assert(out.graph.tensors[g.tensors.len() as int + 1].shape == ss.1);
    assert(ss.0[av as int] == (t[av as int] - t[av as int] / 2) as i32);
    assert(ss.1[av as int] == (t[av as int] / 2) as i32);
}

} // verus!
