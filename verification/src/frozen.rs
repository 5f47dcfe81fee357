//! A linear layer whose weights stay as they were loaded.

use candle_core::Tensor;
use vstd::prelude::*;

use crate::engine::{
    contents, contents_of, dims_of, linear_forward, linear_result, multiplies_in, tensor_dims,
    tensor_dtype, tensor_on_cpu, Contents,
};
use crate::error::{engine_outcome, LoraError};
use crate::shape::{dims_fit, fits, linear_out_dims, output_fits};

verus! {

/// A linear transform `x @ weightᵗ + bias` that no adapter touches.
///
/// The weight has the axes `[out_features, in_features]`; the bias, where
/// there is one, has `out_features` elements.
#[derive(Debug)]
pub struct FrozenLayer {
    weight: Tensor,
    bias: Option<Tensor>,
    in_features: usize,
    out_features: usize,
}

/// Whether a weight and a bias of these shapes make a linear layer: the
/// weight has two axes and can be counted by the engine, and the bias is as
/// long as the weight's first axis.
pub open spec fn layer_shaped(weight: Seq<usize>, bias: Option<Seq<usize>>) -> bool {
    &&& weight.len() == 2
    &&& dims_fit(weight)
    &&& bias matches Some(b) ==> b == seq![weight[0]]
}

/// Whether a layer of `in_features` inputs and `out_features` outputs takes
/// an input of shape `x`: it has two axes or more, the last as long as the
/// layer's input, and the engine can count its elements and the output's.
pub open spec fn accepts(in_features: usize, out_features: usize, x: Seq<usize>) -> bool {
    &&& x.len() >= 2
    &&& x.last() == in_features
    &&& dims_fit(x)
    &&& dims_fit(linear_out_dims(x, out_features))
}

impl FrozenLayer {
    #[verifier::type_invariant]
    spec fn inv(self) -> bool {
        &&& tensor_dims(self.weight) == seq![self.out_features, self.in_features]
        &&& dims_fit(tensor_dims(self.weight))
        &&& self.bias matches Some(b) ==> tensor_dims(b) == seq![self.out_features]
    }

    /// The weight tensor.
    pub closed spec fn spec_weight(&self) -> Tensor {
        self.weight
    }

    /// The bias tensor, where the layer has one.
    pub closed spec fn spec_bias(&self) -> Option<Tensor> {
        self.bias
    }

    /// The length of the input's feature axis.
    pub closed spec fn spec_in_features(&self) -> usize {
        self.in_features
    }

    /// The length of the output's feature axis.
    pub closed spec fn spec_out_features(&self) -> usize {
        self.out_features
    }

    /// What holds of every layer: the weight and the bias have the shapes
    /// that the layer's sizes ask for.
    pub open spec fn well_shaped(&self) -> bool {
        &&& tensor_dims(self.spec_weight()) == seq![self.out_features(), self.in_features()]
        &&& dims_fit(tensor_dims(self.spec_weight()))
        &&& self.spec_bias() matches Some(b) ==> tensor_dims(b) == seq![self.out_features()]
    }

    /// A layer of the given weight and bias, where their shapes make one.
    pub fn new(weight: Tensor, bias: Option<Tensor>) -> (r: Result<FrozenLayer, LoraError>)
        ensures
            layer_shaped(
                tensor_dims(weight),
                match bias {
                    Some(b) => Some(tensor_dims(b)),
                    None => None,
                },
            ) ==> r is Ok && r->Ok_0.spec_weight() == weight && r->Ok_0.spec_bias() == bias
                && r->Ok_0.well_shaped(),
            !layer_shaped(
                tensor_dims(weight),
                match bias {
                    Some(b) => Some(tensor_dims(b)),
                    None => None,
                },
            ) ==> r == Err::<FrozenLayer, LoraError>(LoraError::ShapeMismatch),
    {
        let w_dims = dims_of(&weight);
        if w_dims.len() != 2 || !fits(&w_dims) {
            return Err(LoraError::ShapeMismatch);
        }
        let out_features = w_dims[0];
        let in_features = w_dims[1];
        if let Some(b) = &bias {
            let b_dims = dims_of(b);
            if b_dims.len() != 1 || b_dims[0] != out_features {
                return Err(LoraError::ShapeMismatch);
            }
            assert(b_dims@ =~= seq![out_features]);
        }
        assert(w_dims@ =~= seq![out_features, in_features]);
        Ok(FrozenLayer { weight, bias, in_features, out_features })
    }

    /// The weight tensor.
    pub fn weight(&self) -> (w: &Tensor)
        ensures
            *w == self.spec_weight(),
            tensor_dims(*w) == seq![self.out_features(), self.in_features()],
    {
        proof {
            use_type_invariant(self);
        }
        &self.weight
    }

    /// The bias tensor, where the layer has one.
    pub fn bias(&self) -> (b: Option<&Tensor>)
        ensures
            b is Some <==> self.spec_bias() is Some,
            b matches Some(t) ==> *t == self.spec_bias()->Some_0 && tensor_dims(*t) == seq![
                self.out_features(),
            ],
    {
        proof {
            use_type_invariant(self);
        }
        self.bias.as_ref()
    }

    /// The length of the input's feature axis.
    #[verifier::when_used_as_spec(spec_in_features)]
    pub fn in_features(&self) -> (n: usize)
        ensures
            n == self.in_features(),
    {
        self.in_features
    }

    /// The length of the output's feature axis.
    #[verifier::when_used_as_spec(spec_out_features)]
    pub fn out_features(&self) -> (n: usize)
        ensures
            n == self.out_features(),
    {
        self.out_features
    }

    /// The shape of the weight: the number of outputs, then of inputs.
    pub fn shape(&self) -> (dims: Vec<usize>)
        ensures
            dims@ == seq![self.out_features(), self.in_features()],
    {
        let mut dims: Vec<usize> = Vec::new();
        dims.push(self.out_features);
        dims.push(self.in_features);
        assert(dims@ =~= seq![self.out_features(), self.in_features()]);
        dims
    }

    /// What a forward pass returns on an input holding `x`. An input that
    /// the layer does not accept is a shape mismatch. For one that it
    /// accepts, the engine is given the layer's weight and bias and the
    /// input: a result is its linear transform of the three, of the input's
    /// shape with the feature axis as long as the layer's output, and a
    /// failure is the engine's.
    pub open spec fn forward_result(&self, x: Contents, r: Result<Tensor, LoraError>) -> bool {
        if accepts(self.in_features(), self.out_features(), x.dims) {
            match r {
                Ok(t) => {
                    &&& linear_result(
                        contents(self.spec_weight()),
                        contents_of(self.spec_bias()),
                        x,
                        contents(t),
                    )
                    &&& tensor_dims(t) == linear_out_dims(x.dims, self.out_features())
                    &&& tensor_dtype(t) == x.dtype
                },
                Err(e) => e is Engine,
            }
        } else {
            r == Err::<Tensor, LoraError>(LoraError::ShapeMismatch)
        }
    }

    /// Whether the engine is sure to transform `x`: the layer accepts it,
    /// it has two axes, or three with at least one position, and input,
    /// weight and bias lie in the memory of the machine's own processor and
    /// hold one element type in which the engine multiplies matrices.
    pub open spec fn sure_of(&self, x: Tensor) -> bool {
        &&& accepts(self.in_features(), self.out_features(), tensor_dims(x))
        &&& tensor_dims(x).len() == 2 || (tensor_dims(x).len() == 3 && tensor_dims(x)[0]
            * tensor_dims(x)[1] > 0)
        &&& tensor_on_cpu(x)
        &&& tensor_on_cpu(self.spec_weight())
        &&& tensor_dtype(self.spec_weight()) == tensor_dtype(x)
        &&& multiplies_in(tensor_dtype(x))
        &&& self.spec_bias() matches Some(b) ==> tensor_on_cpu(b) && tensor_dtype(b)
            == tensor_dtype(x)
    }

    /// Applies the transform to `x`. Where the engine is sure to transform
    /// it, the pass succeeds.
    pub fn forward(&self, x: &Tensor) -> (r: Result<Tensor, LoraError>)
        ensures
            self.forward_result(contents(*x), r),
            self.sure_of(*x) ==> r is Ok,
            r is Ok ==> tensor_on_cpu(r->Ok_0) == tensor_on_cpu(*x),
    {
        proof {
            use_type_invariant(self);
        }
        let x_dims = dims_of(x);
        if x_dims.len() < 2 || x_dims[x_dims.len() - 1] != self.in_features || !fits(&x_dims) {
            return Err(LoraError::ShapeMismatch);
        }
        if !output_fits(&x_dims, self.out_features) {
            return Err(LoraError::ShapeMismatch);
        }
        engine_outcome(linear_forward(&self.weight, self.bias.as_ref(), x))
    }

    /// Applies the transform to `x`; the scalings are taken and ignored, as
    /// the layer has no adapter to scale: whatever they are, the pass
    /// succeeds where the engine is sure to transform the input.
    pub fn lora_forward(&self, x: &Tensor, scalings_layer: Tensor) -> (r: Result<Tensor, LoraError>)
        ensures
            self.forward_result(contents(*x), r),
            self.sure_of(*x) ==> r is Ok,
    {
        self.forward(x)
    }
}

} // verus!
