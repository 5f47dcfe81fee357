//! What every linear-like layer offers, and the handle that stands for
//! either kind of layer.

use candle_core::Tensor;
use vstd::prelude::*;

use crate::adapter::AdapterLayer;
use crate::error::LoraError;
use crate::frozen::{accepts, FrozenLayer};
use crate::engine::{contents, contents_of, linear_result, tensor_dims, Contents};
use crate::shape::linear_out_dims;

verus! {

/// Any layer that is linear-like: it has a weight of shape
/// `[outputs, inputs]`, it may have a bias, and it transforms an input
/// under the scalings of the current forward pass.
pub trait LinearLayerLike: std::fmt::Debug {
    /// The length of the input's feature axis.
    spec fn input_width(&self) -> usize;

    /// The length of the output's feature axis.
    spec fn output_width(&self) -> usize;

    /// The weight of the layer's base transform.
    spec fn weight_tensor(&self) -> Tensor;

    /// The bias that the layer adds to its output, where it has one.
    spec fn bias_tensor(&self) -> Option<Tensor>;

    /// What the layer's forward pass returns on an input holding `x` under
    /// scalings holding `scalings`.
    spec fn forward_spec(&self, x: Contents, scalings: Contents, r: Result<Tensor, LoraError>) -> bool;

    /// The weight tensor.
    fn weight(&self) -> (w: &Tensor)
        ensures
            *w == self.weight_tensor(),
            tensor_dims(*w) == seq![self.output_width(), self.input_width()],
    ;

    /// The bias tensor, where the layer has one.
    fn bias(&self) -> (b: Option<&Tensor>)
        ensures
            b is Some <==> self.bias_tensor() is Some,
            b matches Some(t) ==> *t == self.bias_tensor()->Some_0 && tensor_dims(*t) == seq![
                self.output_width(),
            ],
    ;

    /// The shape of the weight: the number of outputs, then of inputs.
    fn shape(&self) -> (dims: Vec<usize>)
        ensures
            dims@ == seq![self.output_width(), self.input_width()],
    ;

    /// Transforms `x` under the scalings of this forward pass. A result has
    /// the input's shape with the feature axis as long as the layer's
    /// output, and the input was one that a layer of this width accepts.
    fn lora_forward(&self, x: &Tensor, scalings_layer: Tensor) -> (r: Result<Tensor, LoraError>)
        ensures
            self.forward_spec(contents(*x), contents(scalings_layer), r),
            r matches Ok(t) ==> {
                &&& accepts(self.input_width(), self.output_width(), tensor_dims(*x))
                &&& tensor_dims(t) == linear_out_dims(tensor_dims(*x), self.output_width())
            },
    ;
}

impl LinearLayerLike for FrozenLayer {
    open spec fn input_width(&self) -> usize {
        self.in_features()
    }

    open spec fn output_width(&self) -> usize {
        self.out_features()
    }

    open spec fn weight_tensor(&self) -> Tensor {
        self.spec_weight()
    }

    open spec fn bias_tensor(&self) -> Option<Tensor> {
        self.spec_bias()
    }

    /// A frozen layer does not look at the scalings.
    open spec fn forward_spec(&self, x: Contents, scalings: Contents, r: Result<Tensor, LoraError>) -> bool {
        self.forward_result(x, r)
    }

    fn weight(&self) -> (w: &Tensor) {
        self.weight()
    }

    fn bias(&self) -> (b: Option<&Tensor>) {
        self.bias()
    }

    fn shape(&self) -> (dims: Vec<usize>) {
        self.shape()
    }

    fn lora_forward(&self, x: &Tensor, scalings_layer: Tensor) -> (r: Result<Tensor, LoraError>)
        ensures
            self.sure_of(*x) ==> r is Ok,
    {
        self.forward(x)
    }
}

/// A frozen layer forwards as its base transform, whatever the scalings:
/// a result of its forward pass is the engine's linear transform of the
/// layer's weight, its bias and the input, a failure is a shape mismatch
/// exactly on an input that the layer does not accept and else the
/// engine's, and the same holds of the pass under any other scalings.
pub proof fn frozen_layers_forward_as_the_base_transform(
    layer: FrozenLayer,
    x: Contents,
    scalings: Contents,
    r: Result<Tensor, LoraError>,
)
    requires
        LoraLayer::Frozen(layer).forward_spec(x, scalings, r),
    ensures
        r matches Ok(t) ==> linear_result(
            contents(layer.spec_weight()),
            contents_of(layer.spec_bias()),
            x,
            contents(t),
        ),
        r matches Err(e) ==> (e is ShapeMismatch <==> !accepts(
            layer.in_features(),
            layer.out_features(),
            x.dims,
        )) && (e is ShapeMismatch || e is Engine),
        forall|others: Contents| #[trigger] LoraLayer::Frozen(layer).forward_spec(x, others, r),
{
}

impl LinearLayerLike for AdapterLayer {
    open spec fn input_width(&self) -> usize {
        self.base().in_features()
    }

    open spec fn output_width(&self) -> usize {
        self.base().out_features()
    }

    /// The weight of a layer with adapters is that of its base transform.
    open spec fn weight_tensor(&self) -> Tensor {
        self.base().spec_weight()
    }

    /// The bias of a layer with adapters is that of its base transform.
    open spec fn bias_tensor(&self) -> Option<Tensor> {
        self.base().spec_bias()
    }

    /// A layer with adapters takes every adapter's input to be the input.
    open spec fn forward_spec(&self, x: Contents, scalings: Contents, r: Result<Tensor, LoraError>) -> bool {
        self.forward_result(x, None, scalings, r)
    }

    fn weight(&self) -> (w: &Tensor) {
        self.weight()
    }

    fn bias(&self) -> (b: Option<&Tensor>) {
        self.bias()
    }

    fn shape(&self) -> (dims: Vec<usize>) {
        self.shape()
    }

    fn lora_forward(&self, x: &Tensor, scalings_layer: Tensor) -> (r: Result<Tensor, LoraError>)
        ensures
            self.sure_of(*x, None, scalings_layer) ==> r is Ok,
    {
        self.lora_forward(x, scalings_layer)
    }
}

/// The handle to a layer: frozen where no adapter targets the module, with
/// adapters where they do. Callers use either through `LinearLayerLike`.
#[derive(Debug)]
pub enum LoraLayer {
    Frozen(FrozenLayer),
    Adapted(AdapterLayer),
}

impl LinearLayerLike for LoraLayer {
    open spec fn input_width(&self) -> usize {
        match self {
            LoraLayer::Frozen(layer) => layer.input_width(),
            LoraLayer::Adapted(layer) => layer.input_width(),
        }
    }

    open spec fn output_width(&self) -> usize {
        match self {
            LoraLayer::Frozen(layer) => layer.output_width(),
            LoraLayer::Adapted(layer) => layer.output_width(),
        }
    }

    open spec fn weight_tensor(&self) -> Tensor {
        match self {
            LoraLayer::Frozen(layer) => layer.weight_tensor(),
            LoraLayer::Adapted(layer) => layer.weight_tensor(),
        }
    }

    open spec fn bias_tensor(&self) -> Option<Tensor> {
        match self {
            LoraLayer::Frozen(layer) => layer.bias_tensor(),
            LoraLayer::Adapted(layer) => layer.bias_tensor(),
        }
    }

    open spec fn forward_spec(&self, x: Contents, scalings: Contents, r: Result<Tensor, LoraError>) -> bool {
        match self {
            LoraLayer::Frozen(layer) => layer.forward_spec(x, scalings, r),
            LoraLayer::Adapted(layer) => layer.forward_spec(x, scalings, r),
        }
    }

    fn weight(&self) -> (w: &Tensor) {
        match self {
            LoraLayer::Frozen(layer) => layer.weight(),
            LoraLayer::Adapted(layer) => layer.weight(),
        }
    }

    fn bias(&self) -> (b: Option<&Tensor>) {
        match self {
            LoraLayer::Frozen(layer) => layer.bias(),
            LoraLayer::Adapted(layer) => layer.bias(),
        }
    }

    fn shape(&self) -> (dims: Vec<usize>) {
        match self {
            LoraLayer::Frozen(layer) => layer.shape(),
            LoraLayer::Adapted(layer) => layer.shape(),
        }
    }

    fn lora_forward(&self, x: &Tensor, scalings_layer: Tensor) -> (r: Result<Tensor, LoraError>)
        ensures
            self matches LoraLayer::Frozen(layer) && layer.sure_of(*x) ==> r is Ok,
            self matches LoraLayer::Adapted(layer) && layer.sure_of(*x, None, scalings_layer)
                ==> r is Ok,
    {
        match self {
            LoraLayer::Frozen(layer) => layer.forward(x),
            LoraLayer::Adapted(layer) => layer.lora_forward(x, scalings_layer),
        }
    }
}

} // verus!
