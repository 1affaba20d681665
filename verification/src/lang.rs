//! The term language: the closed set of tensor-graph operator nodes the
//! saturation engine manipulates, plus the two leaf kinds (integer literal
//! and symbolic name).
//!
//! Argument positions are fixed per node kind, and the metadata kind each
//! position expects is part of the grammar (validated by the analysis in
//! [`crate::analysis`]). The grammar itself has no runtime behavior.

use vstd::prelude::*;

verus! {

/// Padding mode encoding shared verbatim with the backend: `SAME`.
pub const PSAME: i32 = 0;

/// Padding mode encoding shared verbatim with the backend: `VALID`.
pub const PVALID: i32 = 1;

/// Activation mode encoding shared verbatim with the backend: none.
pub const ACTNONE: i32 = 0;

/// Activation mode encoding shared verbatim with the backend: sigmoid.
pub const ACTSIGMOID: i32 = 1;

/// Activation mode encoding shared verbatim with the backend: relu.
pub const ACTRELU: i32 = 2;

/// Activation mode encoding shared verbatim with the backend: tanh.
pub const ACTTANH: i32 = 3;

/// A reference to an equivalence class in the enclosing engine's class
/// store. Opaque to this crate: it is only ever used as an index into the
/// store of already-computed metadata.
#[derive(Clone, Copy, PartialEq, Eq, Structural, Debug, Hash)]
pub struct Id(pub usize);

/// One operator application in the term grammar, referencing operand
/// classes by [`Id`].
///
/// Operand positions, in order:
/// - `Input(name)`, `Weight(name)`: one `Name` operand of the form
///   `identifier@dim1_dim2_..._dimN`.
/// - `Ewadd(a, b)`, `Ewmul(a, b)`: two tensors.
/// - `Matmul(activation, a, b)`: a scalar activation code and two tensors.
/// - `Conv2d(strideH, strideW, padding, activation, input, weight)`: four
///   scalars and two tensors. The backend's output-shape computation is
///   known to be wrong for even kernel sizes; this crate does not work
///   around that.
/// - `Enlarge(target, reference)`: two tensors.
/// - `Relu(t)`, `Tanh(t)`, `Sigmoid(t)`: one tensor.
/// - `Poolavg`/`Poolmax(input, kernelH, kernelW, strideH, strideW, padding,
///   activation)`: one tensor and six scalars.
/// - `Concat(axis, rank, a, b)`: two scalars and two tensors. The rank
///   operand only satisfies grammar typing; it is validated and otherwise
///   unused.
/// - `Split(axis, input)`: a scalar and a tensor; the only kind producing
///   `TnsrTuple` metadata.
/// - `Split0(s)`, `Split1(s)`: project one half out of a `Split` result;
///   the operand must carry `TnsrTuple` metadata.
/// - `Merge(weight, count)`: a tensor and a scalar group count.
/// - `Smul`, `Transpose`, `Cpool`, `Iconv`, `Imatmul`, `Iewmul`: part of
///   the grammar for rule authors, but with no defined metadata
///   translation; the analysis reports them as unimplemented.
/// - `Num(n)`: integer literal leaf.
/// - `Var(s)`: symbolic name leaf.
#[derive(Clone, PartialEq, Debug)]
pub enum Mdl {
    Input(Id),
    Weight(Id),
    Ewadd(Id, Id),
    Ewmul(Id, Id),
    Smul(Id, Id),
    Transpose(Id),
    Matmul(Id, Id, Id),
    Conv2d(Id, Id, Id, Id, Id, Id),
    Enlarge(Id, Id),
    Relu(Id),
    Tanh(Id),
    Sigmoid(Id),
    Poolavg(Id, Id, Id, Id, Id, Id, Id),
    Poolmax(Id, Id, Id, Id, Id, Id, Id),
    Concat(Id, Id, Id, Id),
    Split0(Id),
    Split1(Id),
    Split(Id, Id),
    Cpool(Id, Id),
    Iconv(Id, Id),
    Imatmul,
    Iewmul,
    Merge(Id, Id),
    Num(i32),
    Var(String),
}

/// True when `v` is one of the fixed padding mode encodings.
pub open spec fn valid_padding(v: int) -> bool {
    v == PSAME as int || v == PVALID as int
}

/// True when `v` is one of the fixed activation mode encodings.
pub open spec fn valid_activation(v: int) -> bool {
    ACTNONE as int <= v <= ACTTANH as int
}

/// Checks a scalar against the padding mode encoding.
pub fn is_valid_padding(v: i32) -> (r: bool)
    ensures
        r == valid_padding(v as int),
{
    v == PSAME || v == PVALID
}

/// Checks a scalar against the activation mode encoding.
pub fn is_valid_activation(v: i32) -> (r: bool)
    ensures
        r == valid_activation(v as int),
{
    ACTNONE <= v && v <= ACTTANH
}

} // verus!
