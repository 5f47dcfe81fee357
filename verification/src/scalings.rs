//! Selecting one adapter's scalings from the scaling tensor, and applying
//! them to activations.
//!
//! The scaling tensor has the axes `[batch, sequence, adapters]`, or
//! `[batch, sequence, layers, adapters]` where each layer has scalings of
//! its own. Selection only moves data: it is stated here element for
//! element.

use candle_core::Tensor;
use vstd::prelude::*;

use crate::engine::{
    broadcast_mul, computes_with, contents, dims_of, float_type, holds_floats, product_of, select_adapter_axis,
    select_layer_axis, tensor_dims, tensor_dtype, tensor_on_cpu, unsqueeze_last, Contents,
};
use crate::error::{engine_outcome, LoraError};
use crate::shape::{
    broadcast_compatible, broadcast_dims, broadcast_shape, column_dims, column_elems, dims_fit,
    fits, layer_dims, layer_elems,
};

verus! {

/// The scaling of adapter `adapter` at position `pos` of a tensor of three
/// axes, the positions counted through batch and sequence.
pub open spec fn scaling_at(s: Contents, pos: int, adapter: int) -> u64 {
    s.elems[pos * s.dims[2] + adapter]
}

/// The scaling of adapter `adapter` in layer `layer` at position `pos` of a
/// tensor of four axes.
pub open spec fn layer_scaling_at(s: Contents, pos: int, layer: int, adapter: int) -> u64 {
    s.elems[(pos * s.dims[2] + layer) * s.dims[3] + adapter]
}

/// The scalings of one layer: for a tensor of four axes, the slice of the
/// layer axis at `layer`; a tensor of three axes has one layer's scalings
/// already.
pub open spec fn layer_scalings(s: Contents, layer: usize) -> Result<Contents, LoraError> {
    if s.dims.len() == 3 {
        Ok(s)
    } else if s.dims.len() != 4 {
        Err(LoraError::ShapeMismatch)
    } else if layer >= s.dims[2] {
        Err(LoraError::IndexOutOfRange)
    } else {
        Ok(
            Contents {
                dims: layer_dims(s.dims),
                elems: layer_elems(s.dims, s.elems, layer as int),
                dtype: s.dtype,
            },
        )
    }
}

/// The scalings of one adapter, out of one layer's: the column at `adapter`
/// of the last axis, with a last axis of length 1 in its place so that it
/// broadcasts over features.
pub open spec fn adapter_scalings(s: Contents, adapter: usize) -> Result<Contents, LoraError> {
    if s.dims.len() != 3 {
        Err(LoraError::ShapeMismatch)
    } else if adapter >= s.dims[2] {
        Err(LoraError::IndexOutOfRange)
    } else {
        Ok(
            Contents {
                dims: column_dims(s.dims).push(1),
                elems: column_elems(s.dims, s.elems, adapter as int),
                dtype: s.dtype,
            },
        )
    }
}

/// The selection as a whole: without a layer index, the adapter's column of
/// a tensor of three axes; with one, the adapter's column of that layer's
/// slice of a tensor of four axes.
pub open spec fn selection(s: Contents, adapter: usize, layer: Option<usize>) -> Result<
    Contents,
    LoraError,
> {
    match layer {
        None => adapter_scalings(s, adapter),
        Some(l) => if s.dims.len() != 4 {
            Err(LoraError::ShapeMismatch)
        } else {
            match layer_scalings(s, l) {
                Ok(slice) => adapter_scalings(slice, adapter),
                Err(e) => Err(e),
            }
        },
    }
}

/// What `outcome` holds is what `model` says: the same failure, or a tensor
/// of the stated shape and elements.
pub open spec fn yields(outcome: Result<Tensor, LoraError>, model: Result<Contents, LoraError>) -> bool {
    match model {
        Ok(s) => outcome is Ok && contents(outcome->Ok_0) == s,
        Err(e) => outcome == Err::<Tensor, LoraError>(e),
    }
}

/// Selection reads one adapter's column and nothing else: two scaling
/// tensors of one shape and element type that agree wherever the adapter's index is
/// `adapter` (and, with a layer index, the layer's is `layer`) have the
/// same selection.
pub proof fn selection_reads_only_its_column(
    a: Contents,
    b: Contents,
    adapter: usize,
    layer: Option<usize>,
)
    requires
        a.dims == b.dims,
        a.dtype == b.dtype,
        layer is None ==> forall|pos: int|
            0 <= pos < a.dims[0] * a.dims[1] ==> #[trigger] scaling_at(a, pos, adapter as int)
                == scaling_at(b, pos, adapter as int),
        layer matches Some(l) ==> forall|pos: int|
            0 <= pos < a.dims[0] * a.dims[1] ==> #[trigger] layer_scaling_at(
                a,
                pos,
                l as int,
                adapter as int,
            ) == layer_scaling_at(b, pos, l as int, adapter as int),
    ensures
        selection(a, adapter, layer) == selection(b, adapter, layer),
{
    match layer {
        None => {
            if a.dims.len() == 3 && adapter < a.dims[2] {
                assert forall|j: int| 0 <= j < a.dims[0] * a.dims[1] implies column_elems(
                    a.dims,
                    a.elems,
                    adapter as int,
                )[j] == column_elems(b.dims, b.elems, adapter as int)[j] by {
                    assert(scaling_at(a, j, adapter as int) == scaling_at(b, j, adapter as int));
                }
                assert(column_elems(a.dims, a.elems, adapter as int) =~= column_elems(
                    b.dims,
                    b.elems,
                    adapter as int,
                ));
            }
        },
        Some(l) => {
            if a.dims.len() == 4 && l < a.dims[2] && adapter < a.dims[3] {
                let n = a.dims[3] as int;
                let sa = layer_elems(a.dims, a.elems, l as int);
                let sb = layer_elems(b.dims, b.elems, l as int);
                let da = layer_dims(a.dims);
                assert forall|j: int| 0 <= j < da[0] * da[1] implies column_elems(da, sa, adapter as int)[j]
                    == column_elems(da, sb, adapter as int)[j] by {
                    let at = j * n + adapter;
                    lemma_position(j, n, adapter as int);
                    lemma_within(j, adapter as int, a.dims[0] * a.dims[1], n);
                    assert(0 <= at < a.dims[0] * a.dims[1] * a.dims[3]);
                    assert(sa[at] == layer_scaling_at(a, j, l as int, adapter as int));
                    assert(sb[at] == layer_scaling_at(b, j, l as int, adapter as int));
                }
                assert(column_elems(da, sa, adapter as int) =~= column_elems(
                    da,
                    sb,
                    adapter as int,
                ));
            }
        },
    }
}

/// Selecting twice from equal contents gives equal contents: the selection
/// depends on nothing but the shape, the elements and the two indices.
pub proof fn selection_is_a_function(
    a: Tensor,
    b: Tensor,
    adapter: usize,
    layer: Option<usize>,
    first: Result<Tensor, LoraError>,
    second: Result<Tensor, LoraError>,
)
    requires
        contents(a) == contents(b),
        yields(first, selection(contents(a), adapter, layer)),
        yields(second, selection(contents(b), adapter, layer)),
    ensures
        first is Ok <==> second is Ok,
        first is Ok ==> contents(first->Ok_0) == contents(second->Ok_0),
        first is Err ==> first == second,
{
}

/// The scalings of one layer out of a scaling tensor: the slice at `layer`
/// of a tensor of four axes, or a tensor of three axes as it is.
pub fn get_maybe_topk_scalings(scalings: Tensor, layer: usize) -> (r: Result<Tensor, LoraError>)
    ensures
        yields(r, layer_scalings(contents(scalings), layer)),
        tensor_dims(scalings).len() == 3 ==> r == Ok::<Tensor, LoraError>(scalings),
        r matches Ok(t) ==> tensor_on_cpu(t) == tensor_on_cpu(scalings),
{
    let dims = dims_of(&scalings);
    if dims.len() == 3 {
        Ok(scalings)
    } else if dims.len() != 4 {
        Err(LoraError::ShapeMismatch)
    } else if layer >= dims[2] {
        Err(LoraError::IndexOutOfRange)
    } else {
        engine_outcome(select_layer_axis(&scalings, layer))
    }
}

/// The scalings of one adapter out of one layer's scalings, shaped
/// `[batch, sequence, 1]`.
pub fn select_scaling(scalings_layer: &Tensor, adapter: usize) -> (r: Result<Tensor, LoraError>)
    ensures
        yields(r, adapter_scalings(contents(*scalings_layer), adapter)),
        r matches Ok(t) ==> tensor_on_cpu(t) == tensor_on_cpu(*scalings_layer),
{
    let dims = dims_of(scalings_layer);
    if dims.len() != 3 {
        Err(LoraError::ShapeMismatch)
    } else if adapter >= dims[2] {
        Err(LoraError::IndexOutOfRange)
    } else {
        let column = engine_outcome(select_adapter_axis(scalings_layer, adapter))?;
        engine_outcome(unsqueeze_last(&column))
    }
}

/// The scalings of one adapter out of a scaling tensor: of three axes where
/// no layer index is given, of four axes where one is.
pub fn select(scalings: &Tensor, adapter: usize, layer: Option<usize>) -> (r: Result<
    Tensor,
    LoraError,
>)
    ensures
        yields(r, selection(contents(*scalings), adapter, layer)),
        r matches Ok(t) ==> tensor_on_cpu(t) == tensor_on_cpu(*scalings),
{
    match layer {
        None => select_scaling(scalings, adapter),
        Some(l) => {
            let dims = dims_of(scalings);
            if dims.len() != 4 {
                Err(LoraError::ShapeMismatch)
            } else if l >= dims[2] {
                Err(LoraError::IndexOutOfRange)
            } else {
                let slice = engine_outcome(select_layer_axis(scalings, l))?;
                select_scaling(&slice, adapter)
            }
        },
    }
}

/// Whether activations of shape `x` can take scalings selected from one
/// layer's scalings of shape `scalings`: the selected column broadcasts
/// against them, and the engine can count the elements involved.
pub open spec fn scalable(x: Seq<usize>, scalings: Seq<usize>) -> bool {
    &&& dims_fit(x)
    &&& dims_fit(column_dims(scalings).push(1))
    &&& broadcast_compatible(x, column_dims(scalings).push(1))
    &&& dims_fit(broadcast_dims(x, column_dims(scalings).push(1)))
}

/// What applying an adapter's scalings comes to before the engine
/// multiplies: the failure that the shapes, the index and the element type
/// of the activations bring, or none.
pub open spec fn apply_failure(x: Contents, scalings: Contents, adapter: usize) -> Option<
    LoraError,
> {
    if scalings.dims.len() != 3 {
        Some(LoraError::ShapeMismatch)
    } else if adapter >= scalings.dims[2] {
        Some(LoraError::IndexOutOfRange)
    } else if !scalable(x.dims, scalings.dims) {
        Some(LoraError::ShapeMismatch)
    } else if !float_type(x.dtype) {
        Some(LoraError::ElementType)
    } else {
        None
    }
}

/// Multiplies activations by one adapter's scalings, broadcast over the
/// feature axis.
///
/// The scalings are selected from one layer's scalings at `adapter`. Where
/// the shapes, the index and the element type are in order, the engine
/// multiplies the activations by the selected column: the result is its
/// product of the two, of the broadcast shape, or the engine's failure. On
/// the machine's own processor, with one element type that the engine
/// computes with, it does not fail.
pub fn apply_scalings_to_x(x: Tensor, scalings_layer: &Tensor, adapter: usize) -> (r: Result<
    Tensor,
    LoraError,
>)
    ensures
        apply_failure(contents(x), contents(*scalings_layer), adapter) matches Some(e) ==> r
            == Err::<Tensor, LoraError>(e),
        apply_failure(contents(x), contents(*scalings_layer), adapter) is None ==> match r {
            Ok(t) => {
                &&& product_of(
                    contents(x),
                    adapter_scalings(contents(*scalings_layer), adapter)->Ok_0,
                    contents(t),
                )
                &&& tensor_dims(t) == broadcast_dims(
                    tensor_dims(x),
                    column_dims(tensor_dims(*scalings_layer)).push(1),
                )
                &&& tensor_dtype(t) == tensor_dtype(x)
            },
            Err(e) => e is Engine,
        },
        apply_failure(contents(x), contents(*scalings_layer), adapter) is None && tensor_on_cpu(x)
            && tensor_on_cpu(*scalings_layer) && tensor_dtype(x) == tensor_dtype(*scalings_layer)
            && computes_with(tensor_dtype(x)) ==> r is Ok,
{
    let selected = select_scaling(scalings_layer, adapter)?;
    let x_dims = dims_of(&x);
    let s_dims = dims_of(&selected);
    if !fits(&x_dims) || !fits(&s_dims) {
        return Err(LoraError::ShapeMismatch);
    }
    match broadcast_shape(&x_dims, &s_dims) {
        None => Err(LoraError::ShapeMismatch),
        Some(out_dims) => {
            if !fits(&out_dims) {
                Err(LoraError::ShapeMismatch)
            } else if !holds_floats(&x) {
                Err(LoraError::ElementType)
            } else {
                engine_outcome(broadcast_mul(&x, &selected))
            }
        },
    }
}

/// With `0 <= k < n`: the index `j * n + k` lies at position `j`, place `k`.
proof fn lemma_position(j: int, n: int, k: int)
    requires
        0 <= j,
        0 <= k < n,
    ensures
        (j * n + k) / n == j,
        (j * n + k) % n == k,
{
    vstd::arithmetic::div_mod::lemma_fundamental_div_mod_converse(j * n + k, n, j, k);
}

/// With `0 <= j < m` and `0 <= k < n`: the index `j * n + k` is below `m * n`.
proof fn lemma_within(j: int, k: int, m: int, n: int)
    requires
        0 <= j < m,
        0 <= k < n,
    ensures
        0 <= j * n + k < m * n,
{
    assert(j * n + k < m * n) by (nonlinear_arith)
        requires
            0 <= j < m,
            0 <= k < n,
    ;
    assert(0 <= j * n) by (nonlinear_arith)
        requires
            0 <= j,
            0 <= n,
    ;
}

} // verus!
