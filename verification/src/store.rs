//! The source of weights: a store of named tensors, read at a path.
//!
//! What a store holds is the engine's affair, and may be drawn at random or
//! read from a file: of a tensor that comes out of it nothing is known
//! until its shape has been read. Each request has a relation that holds of
//! what was asked and of whatever the store handed out, so that the library
//! can state which tensors it asked for. Every function in this file is
//! believed by the verifier, not proved.

use candle_core::{Error, Tensor};
use candle_nn::VarBuilder;
use vstd::prelude::*;

verus! {

/// A `candle_nn::VarBuilder`: a store of named tensors together with the
/// dotted path at which it is read.
#[verifier::external_body]
pub struct VarStore<'a> {
    pub inner: VarBuilder<'a>,
}

/// The dotted path at which a store is read.
pub uninterp spec fn store_prefix(store: VarStore) -> Seq<char>;

/// `weight` and `bias` are what the store handed out for a linear layer of
/// `in_dim` inputs and `out_dim` outputs at its path.
pub uninterp spec fn linear_from(
    store: VarStore,
    in_dim: usize,
    out_dim: usize,
    weight: Tensor,
    bias: Tensor,
) -> bool;

/// `weight` is what the store handed out for a linear layer without bias of
/// `in_dim` inputs and `out_dim` outputs at its path.
pub uninterp spec fn linear_no_bias_from(
    store: VarStore,
    in_dim: usize,
    out_dim: usize,
    weight: Tensor,
) -> bool;

/// `t` is what the store handed out for the tensor named `tensor` at
/// `group` and then `name` below its path, asked for as `[rows, cols]` and
/// to be drawn from the default normal distribution where the store makes
/// it.
pub uninterp spec fn drawn_from(
    store: VarStore,
    group: Seq<char>,
    name: Seq<char>,
    tensor: Seq<char>,
    rows: usize,
    cols: usize,
    t: Tensor,
) -> bool;

/// `t` is what the store handed out for the tensor named `tensor` at
/// `group` and then `name` below its path, asked for as `[rows, cols]` and
/// to be filled with zeros where the store makes it.
pub uninterp spec fn zeroed_from(
    store: VarStore,
    group: Seq<char>,
    name: Seq<char>,
    tensor: Seq<char>,
    rows: usize,
    cols: usize,
    t: Tensor,
) -> bool;

/// `VarBuilderArgs::prefix`: the segments of the store's path, joined by
/// dots.
#[verifier::external_body]
pub(crate) fn prefix_of(store: &VarStore) -> (prefix: String)
    ensures
        prefix@ == store_prefix(*store),
{
    store.inner.prefix()
}

/// `candle_nn::linear`: the tensors named `weight` and `bias` at the store's
/// path, asked for as `[out_dim, in_dim]` and `[out_dim]`. A layer that
/// comes back has both; what they hold is the store's to decide.
#[verifier::external_body]
pub(crate) fn load_linear(store: &VarStore, in_dim: usize, out_dim: usize) -> (r: Result<
    (Tensor, Option<Tensor>),
    Error,
>)
    ensures
        r matches Ok(pair) ==> pair.1 is Some && linear_from(
            *store,
            in_dim,
            out_dim,
            pair.0,
            pair.1->Some_0,
        ),
{
    let layer = candle_nn::linear(in_dim, out_dim, store.inner.clone())?;
    Ok((layer.weight().clone(), layer.bias().cloned()))
}

/// `candle_nn::linear_no_bias`: the tensor named `weight` at the store's
/// path, asked for as `[out_dim, in_dim]`. A layer that comes back has no
/// bias; what the weight holds is the store's to decide.
#[verifier::external_body]
pub(crate) fn load_linear_no_bias(store: &VarStore, in_dim: usize, out_dim: usize) -> (r: Result<
    (Tensor, Option<Tensor>),
    Error,
>)
    ensures
        r matches Ok(pair) ==> pair.1 is None && linear_no_bias_from(
            *store,
            in_dim,
            out_dim,
            pair.0,
        ),
{
    let layer = candle_nn::linear_no_bias(in_dim, out_dim, store.inner.clone())?;
    Ok((layer.weight().clone(), layer.bias().cloned()))
}

/// `VarBuilderArgs::get_with_hints` below the store's path, at `group` and
/// then `name`: the tensor named `tensor` there, asked for as
/// `[rows, cols]`. A store that makes what it lacks draws it from the
/// default normal distribution. What comes back is the store's to decide.
#[verifier::external_body]
pub(crate) fn load_or_draw(
    store: &VarStore,
    group: &str,
    name: &str,
    tensor: &str,
    rows: usize,
    cols: usize,
) -> (r: Result<Tensor, Error>)
    ensures
        r matches Ok(t) ==> drawn_from(*store, group@, name@, tensor@, rows, cols, t),
{
    store.inner.pp(group).pp(name).get_with_hints(
        (rows, cols),
        tensor,
        candle_nn::init::DEFAULT_KAIMING_NORMAL,
    )
}

/// `VarBuilderArgs::get_with_hints` below the store's path, at `group` and
/// then `name`: the tensor named `tensor` there, asked for as
/// `[rows, cols]`. A store that makes what it lacks fills it with zeros.
/// What comes back is the store's to decide.
#[verifier::external_body]
pub(crate) fn load_or_zero(
    store: &VarStore,
    group: &str,
    name: &str,
    tensor: &str,
    rows: usize,
    cols: usize,
) -> (r: Result<Tensor, Error>)
    ensures
        r matches Ok(t) ==> zeroed_from(*store, group@, name@, tensor@, rows, cols, t),
{
    store.inner.pp(group).pp(name).get_with_hints((rows, cols), tensor, candle_nn::init::ZERO)
}

} // verus!
