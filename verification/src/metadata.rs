//! The per-equivalence-class metadata record: a tagged record whose tag
//! fully determines which payload field is meaningful. Records are
//! immutable after creation; the merge policy never rewrites one.

use vstd::prelude::*;

verus! {

/// The metadata kind tag of an equivalence class: a symbolic name, a
/// scalar, one backend tensor, or the two outputs of a 2-way split.
#[derive(Clone, Copy, PartialEq, Eq, Structural, Debug)]
pub enum DataKind {
    Name,
    Scalar,
    Tnsr,
    TnsrTuple,
}

impl Default for DataKind {
    /// A fresh record starts as a `Name` until the analysis fills it in.
    fn default() -> (r: Self)
        ensures
            r == DataKind::Name,
    {
        DataKind::Name
    }
}

/// An opaque reference to a tensor owned by the backend graph: either the
/// null handle (the field is unset for this record's kind) or the index of
/// a tensor in the owning session's tensor table. A handle is only
/// meaningful against the session that produced it and must not outlive it.
#[derive(Clone, Copy, PartialEq, Eq, Structural, Debug)]
pub enum TensorHandle {
    Null,
    Idx(usize),
}

/// Mathematical model of a [`ValTnsr`] record.
pub ghost struct ValTnsrV {
    pub dtype: DataKind,
    pub val: int,
    pub name: Seq<char>,
    pub meta: TensorHandle,
    pub meta_2: TensorHandle,
}

/// Metadata record of one equivalence class.
///
/// Exactly one payload group is meaningful, selected by `dtype`:
/// `val` for `Scalar`, `name` for `Name`, `meta` for `Tnsr`, and
/// `meta` plus `meta_2` for `TnsrTuple`. All other fields are unset:
/// zero, empty, or the null handle.
#[derive(Clone, PartialEq, Debug)]
pub struct ValTnsr {
    /// The metadata kind of this class.
    pub dtype: DataKind,
    /// The value of this class if it is a `Scalar`.
    pub val: i32,
    /// The name string of this class if it is a `Name`.
    pub name: String,
    /// The handle to the backend tensor if it is a `Tnsr` or `TnsrTuple`.
    pub meta: TensorHandle,
    /// The handle to the second backend tensor if it is a `TnsrTuple`.
    pub meta_2: TensorHandle,
}

impl View for ValTnsr {
    type V = ValTnsrV;

    open spec fn view(&self) -> ValTnsrV {
        ValTnsrV {
            dtype: self.dtype,
            val: self.val as int,
            name: self.name@,
            meta: self.meta,
            meta_2: self.meta_2,
        }
    }
}

/// The model record for a `Scalar` class carrying `val`.
pub open spec fn scalar_record(val: int) -> ValTnsrV {
    ValTnsrV {
        dtype: DataKind::Scalar,
        val: val,
        name: Seq::empty(),
        meta: TensorHandle::Null,
        meta_2: TensorHandle::Null,
    }
}

/// The model record for a `Name` class carrying `name`.
pub open spec fn name_record(name: Seq<char>) -> ValTnsrV {
    ValTnsrV {
        dtype: DataKind::Name,
        val: 0,
        name: name,
        meta: TensorHandle::Null,
        meta_2: TensorHandle::Null,
    }
}

/// The model record for a `Tnsr` class carrying one handle.
pub open spec fn tensor_record(meta: TensorHandle) -> ValTnsrV {
    ValTnsrV {
        dtype: DataKind::Tnsr,
        val: 0,
        name: Seq::empty(),
        meta: meta,
        meta_2: TensorHandle::Null,
    }
}

/// The model record for a `TnsrTuple` class carrying both split outputs.
pub open spec fn tensor_pair_record(meta: TensorHandle, meta_2: TensorHandle) -> ValTnsrV {
    ValTnsrV {
        dtype: DataKind::TnsrTuple,
        val: 0,
        name: Seq::empty(),
        meta: meta,
        meta_2: meta_2,
    }
}

impl ValTnsr {
    /// Builds the `Scalar` record for `val`; every other field is unset.
    pub fn scalar(val: i32) -> (r: Self)
        ensures
            r@ == scalar_record(val as int),
    {
        ValTnsr {
            dtype: DataKind::Scalar,
            val: val,
            name: String::new(),
            meta: TensorHandle::Null,
            meta_2: TensorHandle::Null,
        }
    }

    /// Builds the `Name` record for `name`; every other field is unset.
    pub fn symbol(name: String) -> (r: Self)
        ensures
            r@ == name_record(name@),
    {
        ValTnsr {
            dtype: DataKind::Name,
            val: 0,
            name: name,
            meta: TensorHandle::Null,
            meta_2: TensorHandle::Null,
        }
    }

    /// Builds the `Tnsr` record wrapping `meta`; every other field is unset.
    pub fn tensor(meta: TensorHandle) -> (r: Self)
        ensures
            r@ == tensor_record(meta),
    {
        ValTnsr {
            dtype: DataKind::Tnsr,
            val: 0,
            name: String::new(),
            meta: meta,
            meta_2: TensorHandle::Null,
        }
    }

    /// Builds the `TnsrTuple` record wrapping both split outputs.
    pub fn tensor_pair(meta: TensorHandle, meta_2: TensorHandle) -> (r: Self)
        ensures
            r@ == tensor_pair_record(meta, meta_2),
    {
        ValTnsr {
            dtype: DataKind::TnsrTuple,
            val: 0,
            name: String::new(),
            meta: meta,
            meta_2: meta_2,
        }
    }
}

impl Default for ValTnsr {
    /// The explicit empty record: a `Name` tag with every payload unset.
    fn default() -> (r: Self)
        ensures
            r@ == name_record(Seq::<char>::empty()),
    {
        ValTnsr {
            dtype: DataKind::Name,
            val: 0,
            name: String::new(),
            meta: TensorHandle::Null,
            meta_2: TensorHandle::Null,
        }
    }
}

/// Why the analysis refused to build metadata for a node. All four signal
/// a malformed term constructed upstream, never bad runtime data; a caller
/// operating a correct rule engine treats any of them as fatal.
#[derive(Clone, Copy, PartialEq, Eq, Structural, Debug)]
pub enum MakeError {
    /// An operand's metadata kind does not match what its position in the
    /// grammar demands, or a scalar operand is not a legal padding or
    /// activation encoding.
    GrammarViolation,
    /// A `Name` operand consumed by `Input` or `Weight` fails the
    /// `identifier@dim1_..._dimN` parse contract.
    MalformedName,
    /// The backend reported an invalid-result sentinel: its shape rules do
    /// not apply to the given arguments.
    BackendRejection,
    /// The node kind has no defined metadata translation.
    Unimplemented,
}

} // verus!
