//! The boundary to the tensor engine.
//!
//! Tensors are carried through the library as opaque values. What the
//! library knows of one is its shape, its element type and, for operations
//! that only move data, where each element of the result comes from. The
//! results of arithmetic are the engine's: each operation has a relation
//! that holds of its operands and of whatever it returned, and the library
//! states over these relations what it has the engine compute. The
//! functions of this file that call the engine are believed by the
//! verifier, not proved: each states what the engine's source shows of the
//! call it makes.

use candle_core::{DType, Error, IndexOp, Tensor, D};
use candle_nn::{Linear, Module};
use vstd::prelude::*;

use crate::shape::{
    broadcast_compatible, broadcast_dims, column_dims, column_elems, dims_fit, layer_dims,
    layer_elems, linear_out_dims,
};

verus! {

#[verifier::external_type_specification]
#[verifier::external_body]
pub struct ExTensor(Tensor);

#[verifier::external_type_specification]
pub struct ExDType(DType);

/// The length of each axis of a tensor, outermost first.
pub uninterp spec fn tensor_dims(t: Tensor) -> Seq<usize>;

/// The elements of a tensor in row-major order of their indices, each as
/// the bit pattern that its element type gives it.
pub uninterp spec fn tensor_elems(t: Tensor) -> Seq<u64>;

/// The element type of a tensor.
pub uninterp spec fn tensor_dtype(t: Tensor) -> DType;

/// What a tensor holds: its shape, its elements in row-major order and
/// their type.
pub struct Contents {
    pub dims: Seq<usize>,
    pub elems: Seq<u64>,
    pub dtype: DType,
}

/// What a tensor holds.
pub open spec fn contents(t: Tensor) -> Contents {
    Contents { dims: tensor_dims(t), elems: tensor_elems(t), dtype: tensor_dtype(t) }
}

/// What a tensor holds, where there is one.
pub open spec fn contents_of(t: Option<Tensor>) -> Option<Contents> {
    match t {
        Some(t) => Some(contents(t)),
        None => None,
    }
}

/// The tensor lies in the memory of the machine's own processor, not of
/// another device.
pub uninterp spec fn tensor_on_cpu(t: Tensor) -> bool;

/// The element type is one of the floating-point types that the engine
/// computes with on the machine's own processor.
pub open spec fn computes_with(dtype: DType) -> bool {
    dtype is BF16 || dtype is F16 || dtype is F32 || dtype is F64 || dtype is F8E4M3
}

/// The element type is one of the floating-point types in which the
/// engine multiplies matrices on the machine's own processor.
pub open spec fn multiplies_in(dtype: DType) -> bool {
    dtype is F16 || dtype is F32 || dtype is F64
}

/// The element type is one of floating-point numbers, on which the
/// engine's arithmetic is total.
pub open spec fn float_type(dtype: DType) -> bool {
    !(dtype is U8 || dtype is U32 || dtype is I16 || dtype is I32 || dtype is I64)
}

/// Whether the element type is one of floating-point numbers.
pub fn is_float_type(dtype: DType) -> (float: bool)
    ensures
        float == float_type(dtype),
{
    match dtype {
        DType::U8 | DType::U32 | DType::I16 | DType::I32 | DType::I64 => false,
        _ => true,
    }
}

/// Whether the tensor holds floating-point numbers.
pub fn holds_floats(t: &Tensor) -> (float: bool)
    ensures
        float == float_type(tensor_dtype(*t)),
{
    is_float_type(dtype_of(t))
}

/// The length of each axis of the tensor, outermost first.
pub fn shape_of(t: &Tensor) -> (dims: Vec<usize>)
    ensures
        dims@ == tensor_dims(*t),
{
    dims_of(t)
}

/// Whether the tensor lies in the memory of the machine's own processor.
pub fn is_on_cpu(t: &Tensor) -> (here: bool)
    ensures
        here == tensor_on_cpu(*t),
{
    on_cpu(t)
}

/// `out` is what the engine gave as the elementwise product of tensors
/// holding `a` and `b`, after broadcasting.
pub uninterp spec fn product_of(a: Contents, b: Contents, out: Contents) -> bool;

/// `out` is what the engine gave as the elementwise sum of tensors holding
/// `a` and `b`.
pub uninterp spec fn sum_of(a: Contents, b: Contents, out: Contents) -> bool;

/// `out` is what the engine gave as the elementwise quotient of tensors
/// holding `a` and `b`.
pub uninterp spec fn quotient_of(a: Contents, b: Contents, out: Contents) -> bool;

/// `out` is what the engine gave as a tensor holding `t`, converted to the
/// element type `dtype`.
pub uninterp spec fn converted(t: Contents, dtype: DType, out: Contents) -> bool;

/// `out` is what the engine gave as the linear transform of an input
/// holding `x`: the input times the transposed `weight`, plus the `bias`
/// where there is one.
pub uninterp spec fn linear_result(
    weight: Contents,
    bias: Option<Contents>,
    x: Contents,
    out: Contents,
) -> bool;

/// `Tensor::dims`: the axis lengths, copied out.
#[verifier::external_body]
pub(crate) fn dims_of(t: &Tensor) -> (r: Vec<usize>)
    ensures
        r@ == tensor_dims(*t),
{
    t.dims().to_vec()
}

/// `Tensor::device` and `Device::is_cpu`: whether the tensor lies in the
/// memory of the machine's own processor.
#[verifier::external_body]
pub(crate) fn on_cpu(t: &Tensor) -> (r: bool)
    ensures
        r == tensor_on_cpu(*t),
{
    t.device().is_cpu()
}

/// `Tensor::dtype`: the element type.
#[verifier::external_body]
pub(crate) fn dtype_of(t: &Tensor) -> (r: DType)
    ensures
        r == tensor_dtype(*t),
{
    t.dtype()
}

/// `IndexOp::i` with `(.., .., adapter)` on a tensor of three axes: the last
/// axis is narrowed to the one index and then removed, so the result has
/// the first two axes and, at each position, the element that stood at
/// `adapter`, of the same type and on the same device. The index must lie
/// on the axis; the engine then succeeds.
#[verifier::external_body]
pub(crate) fn select_adapter_axis(t: &Tensor, adapter: usize) -> (r: Result<Tensor, Error>)
    requires
        tensor_dims(*t).len() == 3,
        adapter < tensor_dims(*t)[2],
    ensures
        r is Ok,
        tensor_dims(r->Ok_0) == column_dims(tensor_dims(*t)),
        tensor_elems(r->Ok_0) == column_elems(tensor_dims(*t), tensor_elems(*t), adapter as int),
        tensor_dtype(r->Ok_0) == tensor_dtype(*t),
        tensor_on_cpu(r->Ok_0) == tensor_on_cpu(*t),
{
    t.i((.., .., adapter))
}

/// `IndexOp::i` with `(.., .., layer, ..)` on a tensor of four axes: the
/// third axis is narrowed to the one index and then removed, the others are
/// kept whole; element type and device stay. The index must lie on the
/// axis; the engine then succeeds.
#[verifier::external_body]
pub(crate) fn select_layer_axis(t: &Tensor, layer: usize) -> (r: Result<Tensor, Error>)
    requires
        tensor_dims(*t).len() == 4,
        layer < tensor_dims(*t)[2],
    ensures
        r is Ok,
        tensor_dims(r->Ok_0) == layer_dims(tensor_dims(*t)),
        tensor_elems(r->Ok_0) == layer_elems(tensor_dims(*t), tensor_elems(*t), layer as int),
        tensor_dtype(r->Ok_0) == tensor_dtype(*t),
        tensor_on_cpu(r->Ok_0) == tensor_on_cpu(*t),
{
    t.i((.., .., layer, ..))
}

/// `Tensor::unsqueeze` at `D::Minus1`: a new last axis of length 1 over the
/// same elements, of the same type and on the same device. The engine
/// accepts this on every tensor.
#[verifier::external_body]
pub(crate) fn unsqueeze_last(t: &Tensor) -> (r: Result<Tensor, Error>)
    ensures
        r is Ok,
        tensor_dims(r->Ok_0) == tensor_dims(*t).push(1),
        tensor_elems(r->Ok_0) == tensor_elems(*t),
        tensor_dtype(r->Ok_0) == tensor_dtype(*t),
        tensor_on_cpu(r->Ok_0) == tensor_on_cpu(*t),
{
    t.unsqueeze(D::Minus1)
}

/// `Tensor::broadcast_mul`: the elementwise product after broadcasting. It
/// fails on shapes that cannot be broadcast against each other and on
/// element types that differ; a result has the broadcast shape and the
/// element type of `a`. On the machine's own processor it succeeds for
/// shapes that can be broadcast and one element type that the engine
/// computes with; of other devices the source shows no such thing. On
/// integers the engine's product can overflow, so the first operand must
/// hold floats.
#[verifier::external_body]
pub(crate) fn broadcast_mul(a: &Tensor, b: &Tensor) -> (r: Result<Tensor, Error>)
    requires
        float_type(tensor_dtype(*a)),
        dims_fit(tensor_dims(*a)),
        dims_fit(tensor_dims(*b)),
        dims_fit(broadcast_dims(tensor_dims(*a), tensor_dims(*b))),
    ensures
        r is Ok ==> broadcast_compatible(tensor_dims(*a), tensor_dims(*b)),
        r is Ok ==> tensor_dims(r->Ok_0) == broadcast_dims(tensor_dims(*a), tensor_dims(*b)),
        r is Ok ==> tensor_dtype(r->Ok_0) == tensor_dtype(*a),
        r is Ok ==> tensor_on_cpu(r->Ok_0) == tensor_on_cpu(*a),
        r is Ok ==> product_of(contents(*a), contents(*b), contents(r->Ok_0)),
        broadcast_compatible(tensor_dims(*a), tensor_dims(*b)) && tensor_on_cpu(*a)
            && tensor_on_cpu(*b) && tensor_dtype(*a) == tensor_dtype(*b) && computes_with(
            tensor_dtype(*a),
        ) ==> r is Ok,
{
    a.broadcast_mul(b)
}

/// `Tensor::add`: the elementwise sum of two tensors. It fails unless the
/// shapes are equal and on element types that differ; a result has that
/// shape and the element type and device of `a`. On the machine's own
/// processor it succeeds for equal shapes and one element type that the
/// engine computes with. On integers the engine's sum can overflow, so the
/// first operand must hold floats.
#[verifier::external_body]
pub(crate) fn add_tensors(a: &Tensor, b: &Tensor) -> (r: Result<Tensor, Error>)
    requires
        float_type(tensor_dtype(*a)),
        dims_fit(tensor_dims(*a)),
    ensures
        r is Ok ==> tensor_dims(*a) == tensor_dims(*b),
        r is Ok ==> tensor_dims(r->Ok_0) == tensor_dims(*a),
        r is Ok ==> tensor_dtype(r->Ok_0) == tensor_dtype(*a),
        r is Ok ==> tensor_on_cpu(r->Ok_0) == tensor_on_cpu(*a),
        r is Ok ==> sum_of(contents(*a), contents(*b), contents(r->Ok_0)),
        tensor_dims(*a) == tensor_dims(*b) && tensor_on_cpu(*a) && tensor_on_cpu(*b)
            && tensor_dtype(*a) == tensor_dtype(*b) && computes_with(tensor_dtype(*a)) ==> r is Ok,
{
    a.add(b)
}

/// `Tensor::div`: the elementwise quotient of two tensors. It fails unless
/// the shapes are equal and on element types that differ; a result has
/// that shape and the element type and device of `a`. On the machine's own
/// processor it succeeds for equal shapes and one element type that the
/// engine computes with. On integers the engine divides by zero at a
/// fault, so the first operand must hold floats.
#[verifier::external_body]
pub(crate) fn div_tensors(a: &Tensor, b: &Tensor) -> (r: Result<Tensor, Error>)
    requires
        float_type(tensor_dtype(*a)),
        dims_fit(tensor_dims(*a)),
    ensures
        r is Ok ==> tensor_dims(*a) == tensor_dims(*b),
        r is Ok ==> tensor_dims(r->Ok_0) == tensor_dims(*a),
        r is Ok ==> tensor_dtype(r->Ok_0) == tensor_dtype(*a),
        r is Ok ==> tensor_on_cpu(r->Ok_0) == tensor_on_cpu(*a),
        r is Ok ==> quotient_of(contents(*a), contents(*b), contents(r->Ok_0)),
        tensor_dims(*a) == tensor_dims(*b) && tensor_on_cpu(*a) && tensor_on_cpu(*b)
            && tensor_dtype(*a) == tensor_dtype(*b) && computes_with(tensor_dtype(*a)) ==> r is Ok,
{
    a.div(b)
}

/// `Tensor::to_dtype`: the same shape with each element converted to the
/// given type, on the same device. On the machine's own processor it
/// succeeds from signed numbers of eight bytes to doubles, and from doubles
/// to each type in which the engine multiplies matrices.
#[verifier::external_body]
pub(crate) fn to_dtype(t: &Tensor, dtype: DType) -> (r: Result<Tensor, Error>)
    requires
        dims_fit(tensor_dims(*t)),
    ensures
        r is Ok ==> tensor_dims(r->Ok_0) == tensor_dims(*t),
        r is Ok ==> tensor_dtype(r->Ok_0) == dtype,
        r is Ok ==> tensor_on_cpu(r->Ok_0) == tensor_on_cpu(*t),
        r is Ok ==> converted(contents(*t), dtype, contents(r->Ok_0)),
        tensor_on_cpu(*t) && ((tensor_dtype(*t) is I64 && dtype is F64) || (tensor_dtype(*t) is F64
            && multiplies_in(dtype))) ==> r is Ok,
{
    t.to_dtype(dtype)
}

/// `Tensor::from_raw_buffer` with the eight bytes of `bits` in the machine's
/// byte order, an empty shape and the device of `like`: a tensor without
/// axes. With one of the two element types of eight bytes that the library
/// uses, it holds the one element whose bit pattern is `bits`, and on the
/// machine's own processor the engine does not fail to make it.
#[verifier::external_body]
pub(crate) fn scalar_like(bits: u64, dtype: DType, like: &Tensor) -> (r: Result<Tensor, Error>)
    ensures
        r is Ok ==> tensor_dims(r->Ok_0) == Seq::<usize>::empty(),
        r is Ok ==> tensor_dtype(r->Ok_0) == dtype,
        r is Ok ==> tensor_on_cpu(r->Ok_0) == tensor_on_cpu(*like),
        r is Ok && (dtype is F64 || dtype is I64) ==> tensor_elems(r->Ok_0) == seq![bits],
        tensor_on_cpu(*like) && (dtype is F64 || dtype is I64) ==> r is Ok,
{
    Tensor::from_raw_buffer(&bits.to_ne_bytes(), dtype, &[], like.device())
}

/// `Module::forward` of a `Linear` made of `weight` and `bias`: the input
/// times the transposed weight, plus the bias. For a weight of two axes and
/// a bias of one axis as long as the weight's first, a result has the
/// input's shape with the last axis replaced by the weight's first, and the
/// input's element type and device; the engine gives none for an input of
/// fewer than two axes. On the machine's own processor it succeeds for an
/// input of two axes, or of three with at least one position, whose last
/// axis is as long as the weight's, with one element type in which the
/// engine multiplies matrices; of other inputs and devices the source
/// shows no such thing.
#[verifier::external_body]
pub(crate) fn linear_forward(weight: &Tensor, bias: Option<&Tensor>, x: &Tensor) -> (r: Result<
    Tensor,
    Error,
>)
    requires
        tensor_dims(*weight).len() == 2,
        dims_fit(tensor_dims(*weight)),
        bias matches Some(b) ==> tensor_dims(*b) == seq![tensor_dims(*weight)[0]],
        dims_fit(tensor_dims(*x)),
        dims_fit(linear_out_dims(tensor_dims(*x), tensor_dims(*weight)[0])),
    ensures
        r is Ok ==> tensor_dims(*x).len() >= 2,
        r is Ok ==> tensor_dims(r->Ok_0) == linear_out_dims(
            tensor_dims(*x),
            tensor_dims(*weight)[0],
        ),
        r is Ok ==> tensor_dtype(r->Ok_0) == tensor_dtype(*x),
        r is Ok ==> tensor_on_cpu(r->Ok_0) == tensor_on_cpu(*x),
        ({
            &&& tensor_dims(*x).len() == 2 || (tensor_dims(*x).len() == 3 && tensor_dims(*x)[0]
                * tensor_dims(*x)[1] > 0)
            &&& tensor_dims(*x).last() == tensor_dims(*weight)[1]
            &&& tensor_on_cpu(*x)
            &&& tensor_on_cpu(*weight)
            &&& tensor_dtype(*weight) == tensor_dtype(*x)
            &&& multiplies_in(tensor_dtype(*x))
            &&& bias matches Some(b) ==> tensor_on_cpu(*b) && tensor_dtype(*b) == tensor_dtype(*x)
        }) ==> r is Ok,
        r is Ok ==> linear_result(
            contents(*weight),
            match bias {
                Some(b) => Some(contents(*b)),
                None => None,
            },
            contents(*x),
            contents(r->Ok_0),
        ),
{
    Linear::new(weight.clone(), bias.cloned()).forward(x)
}

} // verus!
