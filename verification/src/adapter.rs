//! A linear layer with low-rank adapters, each scaled per position.

use candle_core::{DType, Tensor};
use vstd::prelude::*;

use crate::engine::{
    add_tensors, broadcast_mul, contents, contents_of, converted, dims_of, div_tensors, dtype_of,
    float_type, holds_floats, linear_forward, linear_result, multiplies_in, product_of,
    quotient_of, scalar_like, sum_of, tensor_dims, tensor_dtype, tensor_on_cpu, to_dtype,
    Contents,
};
use crate::error::{engine_outcome, LoraError};
use crate::frozen::FrozenLayer;
use crate::scalings::{adapter_scalings, get_maybe_topk_scalings, layer_scalings, select_scaling};
use crate::shape::{
    broadcast_compatible, broadcast_dims, column_dims, dims_fit, fits, linear_out_dims,
    output_fits, prefix_product, suffix_product,
};

verus! {

/// One adapter: the factor `a` of shape `[rank, in_features]`, the factor
/// `b` of shape `[out_features, rank]`, alpha, the ratio of alpha to the
/// rank as a tensor without axes, and the probability with which training
/// drops a feature of its input, where it has one.
#[derive(Debug)]
pub struct Adapter {
    a: Tensor,
    b: Tensor,
    scale: Tensor,
    alpha_bits: u64,
    dropout_bits: Option<u32>,
    rank: usize,
    in_features: usize,
    out_features: usize,
}

/// Whether two tensors of these shapes are the factors of one adapter: `a`
/// is `[rank, in_features]`, `b` is `[out_features, rank]`, the rank can be
/// handed to the engine as a signed number, and the engine can count both.
pub open spec fn factors_fit(a: Seq<usize>, b: Seq<usize>) -> bool {
    &&& a.len() == 2
    &&& b.len() == 2
    &&& b[1] == a[0]
    &&& a[0] <= i64::MAX
    &&& dims_fit(a)
    &&& dims_fit(b)
}

/// A tensor without axes that holds the one element of the given bits.
pub open spec fn scalar(bits: u64, dtype: DType) -> Contents {
    Contents { dims: Seq::<usize>::empty(), elems: seq![bits], dtype }
}

/// `scale` is what the engine gave for alpha over the rank: alpha as a
/// double, divided by the rank converted from a signed number to a double,
/// and the quotient converted to the element type `dtype`.
pub open spec fn is_alpha_over_rank(alpha_bits: u64, rank: usize, dtype: DType, scale: Contents) -> bool {
    exists|count: Contents, ratio: Contents|
        #![trigger quotient_of(scalar(alpha_bits, DType::F64), count, ratio)]
        {
            &&& converted(scalar(rank as u64, DType::I64), DType::F64, count)
            &&& quotient_of(scalar(alpha_bits, DType::F64), count, ratio)
            &&& converted(ratio, dtype, scale)
        }
}

impl Adapter {
    #[verifier::type_invariant]
    spec fn inv(self) -> bool {
        &&& tensor_dims(self.a) == seq![self.rank, self.in_features]
        &&& tensor_dims(self.b) == seq![self.out_features, self.rank]
        &&& dims_fit(tensor_dims(self.a))
        &&& dims_fit(tensor_dims(self.b))
        &&& tensor_dims(self.scale) == Seq::<usize>::empty()
        &&& tensor_dtype(self.scale) == tensor_dtype(self.b)
        &&& tensor_on_cpu(self.scale) == tensor_on_cpu(self.b)
        &&& is_alpha_over_rank(
            self.alpha_bits,
            self.rank,
            tensor_dtype(self.b),
            contents(self.scale),
        )
    }

    /// The inner dimension of the two factors.
    pub closed spec fn spec_rank(&self) -> usize {
        self.rank
    }

    /// The length of the input's feature axis.
    pub closed spec fn spec_in_features(&self) -> usize {
        self.in_features
    }

    /// The length of the output's feature axis.
    pub closed spec fn spec_out_features(&self) -> usize {
        self.out_features
    }

    /// The bit pattern of alpha, as a double.
    pub closed spec fn spec_alpha_bits(&self) -> u64 {
        self.alpha_bits
    }

    /// The bit pattern of the dropout probability, as a single, where the
    /// adapter has one.
    pub closed spec fn spec_dropout_bits(&self) -> Option<u32> {
        self.dropout_bits
    }

    /// The factor that the input is multiplied by first.
    pub closed spec fn spec_a(&self) -> Tensor {
        self.a
    }

    /// The factor that gives the output its width.
    pub closed spec fn spec_b(&self) -> Tensor {
        self.b
    }

    /// The ratio of alpha to the rank, as the engine computed it.
    pub closed spec fn spec_scale(&self) -> Tensor {
        self.scale
    }

    /// `out` is what the engine gave for `sum` plus the adapter's
    /// contribution on `input` under the scalings `selected`: the input
    /// through the factor `a`, that through the factor `b`, the product of
    /// that and the adapter's scale, the product of that and the scalings,
    /// and the sum of `sum` and that.
    pub open spec fn contributes(
        &self,
        sum: Contents,
        input: Contents,
        selected: Contents,
        out: Contents,
    ) -> bool {
        exists|narrow: Contents, delta: Contents, scaled: Contents, weighted: Contents|
            #![trigger
                linear_result(contents(self.spec_b()), None, narrow, delta),
                product_of(scaled, selected, weighted)]
            {
                &&& linear_result(contents(self.spec_a()), None, input, narrow)
                &&& linear_result(contents(self.spec_b()), None, narrow, delta)
                &&& product_of(delta, contents(self.spec_scale()), scaled)
                &&& product_of(scaled, selected, weighted)
                &&& sum_of(sum, weighted, out)
            }
    }

    /// The shape of what the adapter makes of an input of shape `input`.
    pub open spec fn delta_dims(&self, input: Seq<usize>) -> Seq<usize> {
        linear_out_dims(linear_out_dims(input, self.rank()), self.out_features())
    }

    /// Whether the engine can be asked for the adapter's contribution:
    /// the sum and the input hold floats, and the engine can count every
    /// tensor on the way.
    pub open spec fn can_add(&self, sum: Contents, input: Contents, selected: Contents) -> bool {
        &&& float_type(sum.dtype)
        &&& float_type(input.dtype)
        &&& dims_fit(sum.dims)
        &&& dims_fit(input.dims)
        &&& dims_fit(linear_out_dims(input.dims, self.rank()))
        &&& dims_fit(self.delta_dims(input.dims))
        &&& dims_fit(selected.dims)
        &&& dims_fit(broadcast_dims(self.delta_dims(input.dims), selected.dims))
    }

    /// Whether the engine is sure to add the adapter's contribution: it
    /// can be asked for it, the input has three axes with at least one
    /// position and is as wide as the adapter, the scalings broadcast
    /// against the contribution to the shape of the sum, and every tensor
    /// lies in the memory of the machine's own processor and holds one
    /// element type in which the engine multiplies matrices.
    pub open spec fn sure_to_add(&self, sum: Tensor, input: Tensor, selected: Tensor) -> bool {
        &&& self.can_add(contents(sum), contents(input), contents(selected))
        &&& tensor_dims(input).len() == 3
        &&& tensor_dims(input)[0] * tensor_dims(input)[1] > 0
        &&& tensor_dims(input)[2] == self.in_features()
        &&& broadcast_compatible(self.delta_dims(tensor_dims(input)), tensor_dims(selected))
        &&& broadcast_dims(self.delta_dims(tensor_dims(input)), tensor_dims(selected))
            == tensor_dims(sum)
        &&& multiplies_in(tensor_dtype(input))
        &&& self.computes_in(tensor_dtype(input))
        &&& tensor_on_cpu(input) && tensor_dtype(sum) == tensor_dtype(input) && tensor_on_cpu(sum)
        &&& tensor_on_cpu(selected) && tensor_dtype(selected) == tensor_dtype(input)
    }

    /// Both factors lie in the memory of the machine's own processor and
    /// hold elements of the given type.
    pub open spec fn computes_in(&self, dtype: DType) -> bool {
        &&& tensor_on_cpu(self.spec_a())
        &&& tensor_on_cpu(self.spec_b())
        &&& tensor_dtype(self.spec_a()) == dtype
        &&& tensor_dtype(self.spec_b()) == dtype
    }

    /// An adapter of the factors `a` and `b`, of alpha and of the dropout
    /// probability, scaled by alpha over the rank.
    ///
    /// Factors that do not fit each other are a shape mismatch. For factors
    /// that fit, the ratio is the engine's to compute, in the element type
    /// of `b`, and a failure of the engine is passed on; there is none
    /// where `b` lies in the memory of the machine's own processor and
    /// holds a type in which the engine multiplies matrices.
    pub fn new(a: Tensor, b: Tensor, alpha_bits: u64, dropout_bits: Option<u32>) -> (r: Result<
        Adapter,
        LoraError,
    >)
        ensures
            !factors_fit(tensor_dims(a), tensor_dims(b)) ==> r == Err::<Adapter, LoraError>(
                LoraError::ShapeMismatch,
            ),
            factors_fit(tensor_dims(a), tensor_dims(b)) ==> match r {
                Ok(adapter) => {
                    &&& adapter.spec_a() == a
                    &&& adapter.spec_b() == b
                    &&& adapter.alpha_bits() == alpha_bits
                    &&& adapter.dropout_bits() == dropout_bits
                    &&& adapter.rank() == tensor_dims(a)[0]
                    &&& adapter.in_features() == tensor_dims(a)[1]
                    &&& adapter.out_features() == tensor_dims(b)[0]
                    &&& is_alpha_over_rank(
                        alpha_bits,
                        adapter.rank(),
                        tensor_dtype(b),
                        contents(adapter.spec_scale()),
                    )
                },
                Err(e) => e is Engine,
            },
            factors_fit(tensor_dims(a), tensor_dims(b)) && tensor_on_cpu(b) && multiplies_in(
                tensor_dtype(b),
            ) ==> r is Ok,
    {
        let a_dims = dims_of(&a);
        let b_dims = dims_of(&b);
        if a_dims.len() != 2 || b_dims.len() != 2 {
            return Err(LoraError::ShapeMismatch);
        }
        let rank = a_dims[0];
        if b_dims[1] != rank || rank as u64 > i64::MAX as u64 || !fits(&a_dims) || !fits(&b_dims) {
            return Err(LoraError::ShapeMismatch);
        }
        let scale = engine_outcome(alpha_over_rank(alpha_bits, rank, &b))?;
        assert(a_dims@ =~= seq![rank, a_dims@[1]]);
        assert(b_dims@ =~= seq![b_dims@[0], rank]);
        Ok(
            Adapter {
                a,
                b,
                scale,
                alpha_bits,
                dropout_bits,
                rank,
                in_features: a_dims[1],
                out_features: b_dims[0],
            },
        )
    }

    /// The inner dimension of the two factors.
    #[verifier::when_used_as_spec(spec_rank)]
    pub fn rank(&self) -> (rank: usize)
        ensures
            rank == self.rank(),
    {
        self.rank
    }

    /// The length of the input's feature axis.
    #[verifier::when_used_as_spec(spec_in_features)]
    pub fn in_features(&self) -> (n: usize)
        ensures
            n == self.in_features(),
    {
        self.in_features
    }

    /// The length of the output's feature axis.
    #[verifier::when_used_as_spec(spec_out_features)]
    pub fn out_features(&self) -> (n: usize)
        ensures
            n == self.out_features(),
    {
        self.out_features
    }

    /// The bit pattern of alpha, as a double.
    #[verifier::when_used_as_spec(spec_alpha_bits)]
    pub fn alpha_bits(&self) -> (bits: u64)
        ensures
            bits == self.alpha_bits(),
    {
        self.alpha_bits
    }

    /// The bit pattern of the dropout probability, as a single, where the
    /// adapter has one.
    #[verifier::when_used_as_spec(spec_dropout_bits)]
    pub fn dropout_bits(&self) -> (bits: Option<u32>)
        ensures
            bits == self.dropout_bits(),
    {
        self.dropout_bits
    }

    /// The ratio of alpha to the rank, as the engine computed it in the
    /// element type of the factor `b`.
    pub fn scale(&self) -> (scale: &Tensor)
        ensures
            *scale == self.spec_scale(),
            tensor_dims(*scale) == Seq::<usize>::empty(),
            is_alpha_over_rank(
                self.alpha_bits(),
                self.rank(),
                tensor_dtype(self.spec_b()),
                contents(*scale),
            ),
    {
        proof {
            use_type_invariant(self);
        }
        &self.scale
    }

    /// Adds the adapter's contribution on `input`, under the scalings
    /// `selected`, to `sum`: `(input @ aᵗ) @ bᵗ`, times alpha over the
    /// rank, times the scalings, each step the engine's. Where the engine
    /// is sure to add it, there is no failure.
    pub fn add_to(&self, sum: Tensor, input: &Tensor, selected: &Tensor) -> (r: Result<
        Tensor,
        LoraError,
    >)
        requires
            self.can_add(contents(sum), contents(*input), contents(*selected)),
        ensures
            match r {
                Ok(t) => {
                    &&& self.contributes(
                        contents(sum),
                        contents(*input),
                        contents(*selected),
                        contents(t),
                    )
                    &&& tensor_dims(t) == tensor_dims(sum)
                    &&& tensor_dtype(t) == tensor_dtype(sum)
                },
                Err(e) => e is Engine,
            },
            self.sure_to_add(sum, *input, *selected) ==> r is Ok,
            r is Ok ==> tensor_on_cpu(r->Ok_0) == tensor_on_cpu(sum),
    {
        proof {
            use_type_invariant(self);
            lemma_no_axes(self.delta_dims(tensor_dims(*input)));
            if tensor_dims(*input).len() == 3 {
                assert(linear_out_dims(tensor_dims(*input), self.rank) =~= seq![
                    tensor_dims(*input)[0],
                    tensor_dims(*input)[1],
                    self.rank,
                ]);
            }
        }
        let narrow = engine_outcome(linear_forward(&self.a, None, input))?;
        let delta = engine_outcome(linear_forward(&self.b, None, &narrow))?;
        let scaled = engine_outcome(broadcast_mul(&delta, &self.scale))?;
        let weighted = engine_outcome(broadcast_mul(&scaled, selected))?;
        let out = engine_outcome(add_tensors(&sum, &weighted))?;
        proof {
            assert(linear_result(contents(self.spec_b()), None, contents(narrow), contents(delta)));
            assert(product_of(contents(scaled), contents(*selected), contents(weighted)));
        }
        Ok(out)
    }
}

/// A linear layer with adapters: the frozen base transform, the adapters in
/// the order in which they were registered, and the index of the layer
/// among those that carry adapters.
#[derive(Debug)]
pub struct AdapterLayer {
    base: FrozenLayer,
    adapters: Vec<Adapter>,
    layer_index: usize,
}

/// Whether a layer of these sizes takes an input of shape `x`: it is
/// `[batch, sequence, in_features]`, and the engine can count it, the
/// output, and what each adapter of `ranks` makes on the way.
pub open spec fn input_fits(
    in_features: usize,
    out_features: usize,
    ranks: Seq<usize>,
    x: Seq<usize>,
) -> bool {
    &&& x.len() == 3
    &&& x[2] == in_features
    &&& dims_fit(x)
    &&& dims_fit(linear_out_dims(x, out_features))
    &&& forall|i: int| 0 <= i < ranks.len() ==> dims_fit(linear_out_dims(x, #[trigger] ranks[i]))
}

/// Whether one layer's scalings of shape `s` serve `adapters` adapters on
/// an input of shape `x`: the adapter axis has one place for each adapter,
/// and batch and sequence are the input's, or 1 to stand for every one.
pub open spec fn scalings_fit(adapters: nat, x: Seq<usize>, s: Seq<usize>) -> bool {
    &&& s.len() == 3
    &&& s[2] == adapters
    &&& (s[0] == x[0] || s[0] == 1)
    &&& (s[1] == x[1] || s[1] == 1)
}

/// Whether the inputs given for the adapters are one for each adapter, each
/// of the shape of `x`. Without a list every adapter takes `x` itself.
pub open spec fn inputs_fit(adapters: nat, x: Seq<usize>, inputs: Option<Seq<Tensor>>) -> bool {
    inputs matches Some(list) ==> {
        &&& list.len() == adapters
        &&& forall|i: int| 0 <= i < list.len() ==> tensor_dims(#[trigger] list[i]) == x
    }
}

/// Whether the input and the inputs given for the adapters hold floats.
pub open spec fn inputs_hold_floats(x: Contents, inputs: Option<Seq<Tensor>>) -> bool {
    &&& float_type(x.dtype)
    &&& inputs matches Some(list) ==> forall|i: int|
        0 <= i < list.len() ==> float_type(tensor_dtype(#[trigger] list[i]))
}

/// What adapter `i` takes as its input: the one given for it, or `x`.
pub open spec fn input_of(x: Contents, inputs: Option<Seq<Tensor>>, i: int) -> Contents {
    match inputs {
        Some(list) => contents(list[i]),
        None => x,
    }
}

impl AdapterLayer {
    #[verifier::type_invariant]
    spec fn inv(self) -> bool {
        forall|i: int|
            0 <= i < self.adapters@.len() ==> {
                &&& (#[trigger] self.adapters@[i]).in_features() == self.base.in_features()
                &&& self.adapters@[i].out_features() == self.base.out_features()
            }
    }

    /// The frozen base transform.
    pub closed spec fn base(&self) -> FrozenLayer {
        self.base
    }

    /// The adapters, in the order in which they were registered.
    pub closed spec fn adapters(&self) -> Seq<Adapter> {
        self.adapters@
    }

    /// The index of this layer among those that carry adapters.
    pub closed spec fn spec_layer_index(&self) -> usize {
        self.layer_index
    }

    /// The ranks of the adapters, in their order.
    pub open spec fn ranks(&self) -> Seq<usize> {
        Seq::new(self.adapters().len(), |i: int| self.adapters()[i].rank())
    }

    /// The failure that the shapes, the layer index and the element types
    /// bring to a forward pass, or none: the input first, then the
    /// adapters' inputs, then the scalings, then the element types.
    pub open spec fn forward_failure(
        &self,
        x: Contents,
        inputs: Option<Seq<Tensor>>,
        scalings: Contents,
    ) -> Option<LoraError> {
        if !input_fits(
            self.base().in_features(),
            self.base().out_features(),
            self.ranks(),
            x.dims,
        ) {
            Some(LoraError::ShapeMismatch)
        } else if !inputs_fit(self.adapters().len(), x.dims, inputs) {
            Some(LoraError::ShapeMismatch)
        } else {
            match layer_scalings(scalings, self.layer_index()) {
                Err(e) => Some(e),
                Ok(own) => if !scalings_fit(self.adapters().len(), x.dims, own.dims) {
                    Some(LoraError::ShapeMismatch)
                } else if !inputs_hold_floats(x, inputs) {
                    Some(LoraError::ElementType)
                } else {
                    None
                },
            }
        }
    }

    /// `out` is what the engine gave for the base transform of `x` plus the
    /// contributions of the first `upto` adapters, added one after the
    /// other in the order of registration: adapter `i` on its input, under
    /// its own column of the layer's scalings `own`.
    pub open spec fn computes(
        &self,
        x: Contents,
        inputs: Option<Seq<Tensor>>,
        own: Contents,
        upto: nat,
        out: Contents,
    ) -> bool
        decreases upto,
    {
        if upto == 0 {
            linear_result(
                contents(self.base().spec_weight()),
                contents_of(self.base().spec_bias()),
                x,
                out,
            )
        } else {
            exists|before: Contents|
                {
                    &&& self.computes(x, inputs, own, (upto - 1) as nat, before)
                    &&& #[trigger] self.adds(x, inputs, own, (upto - 1) as nat, before, out)
                }
        }
    }

    /// `out` is what the engine gave for `before` plus the contribution of
    /// adapter `i` on its input, under its own column of the layer's
    /// scalings `own`.
    pub open spec fn adds(
        &self,
        x: Contents,
        inputs: Option<Seq<Tensor>>,
        own: Contents,
        i: nat,
        before: Contents,
        out: Contents,
    ) -> bool {
        self.adapters()[i as int].contributes(
            before,
            input_of(x, inputs, i as int),
            adapter_scalings(own, i as usize)->Ok_0,
            out,
        )
    }

    /// What a forward pass returns: the failure that the shapes and the
    /// element types bring; and where they bring none, what the engine
    /// gave for the base transform plus every adapter's contribution under
    /// this layer's scalings, of the input's shape with the feature axis
    /// as long as the layer's output, or the engine's failure.
    pub open spec fn forward_result(
        &self,
        x: Contents,
        inputs: Option<Seq<Tensor>>,
        scalings: Contents,
        r: Result<Tensor, LoraError>,
    ) -> bool {
        match self.forward_failure(x, inputs, scalings) {
            Some(e) => r == Err::<Tensor, LoraError>(e),
            None => match r {
                Ok(t) => {
                    &&& self.computes(
                        x,
                        inputs,
                        layer_scalings(scalings, self.layer_index())->Ok_0,
                        self.adapters().len(),
                        contents(t),
                    )
                    &&& tensor_dims(t) == linear_out_dims(x.dims, self.base().out_features())
                    &&& tensor_dtype(t) == x.dtype
                },
                Err(e) => e is Engine,
            },
        }
    }

    /// Whether the engine is sure to carry out a forward pass: the shapes
    /// and element types bring no failure, the input has at least one
    /// position, and the input, the scalings, the inputs given for the
    /// adapters, the base transform and every adapter's factors lie in the
    /// memory of the machine's own processor and hold one element type in
    /// which the engine multiplies matrices.
    pub open spec fn sure_of(&self, x: Tensor, inputs: Option<Seq<Tensor>>, scalings: Tensor) -> bool {
        &&& self.forward_failure(contents(x), inputs, contents(scalings)) is None
        &&& self.base().sure_of(x)
        &&& tensor_on_cpu(scalings)
        &&& tensor_dtype(scalings) == tensor_dtype(x)
        &&& forall|i: int|
            0 <= i < self.adapters().len() ==> (#[trigger] self.adapters()[i]).computes_in(
                tensor_dtype(x),
            )
        &&& inputs matches Some(list) ==> forall|i: int|
            0 <= i < list.len() ==> tensor_on_cpu(#[trigger] list[i]) && tensor_dtype(list[i])
                == tensor_dtype(x)
    }

    /// A layer of the base transform and the adapters, which must all be as
    /// wide as the base on both sides.
    pub fn new(base: FrozenLayer, adapters: Vec<Adapter>, layer_index: usize) -> (r: Result<
        AdapterLayer,
        LoraError,
    >)
        ensures
            match r {
                Ok(layer) => {
                    &&& layer.base() == base
                    &&& layer.adapters() == adapters@
                    &&& layer.layer_index() == layer_index
                    &&& forall|i: int|
                        0 <= i < adapters@.len() ==> (#[trigger] adapters@[i]).in_features()
                            == base.in_features() && adapters@[i].out_features()
                            == base.out_features()
                },
                Err(e) => {
                    &&& e is ShapeMismatch
                    &&& exists|i: int|
                        0 <= i < adapters@.len() && ((#[trigger] adapters@[i]).in_features()
                            != base.in_features() || adapters@[i].out_features()
                            != base.out_features())
                },
            },
    {
        let in_features = base.in_features();
        let out_features = base.out_features();
        let mut i: usize = 0;
        while i < adapters.len()
            invariant
                i <= adapters.len(),
                in_features == base.in_features(),
                out_features == base.out_features(),
                forall|k: int|
                    0 <= k < i ==> (#[trigger] adapters@[k]).in_features() == in_features
                        && adapters@[k].out_features() == out_features,
            decreases adapters.len() - i,
        {
            if adapters[i].in_features() != in_features || adapters[i].out_features()
                != out_features {
                return Err(LoraError::ShapeMismatch);
            }
            i += 1;
        }
        Ok(AdapterLayer { base, adapters, layer_index })
    }

    /// The weight tensor of the base transform.
    pub fn weight(&self) -> (w: &Tensor)
        ensures
            *w == self.base().spec_weight(),
            tensor_dims(*w) == seq![self.base().out_features(), self.base().in_features()],
    {
        self.base.weight()
    }

    /// The bias tensor of the base transform, where it has one.
    pub fn bias(&self) -> (b: Option<&Tensor>)
        ensures
            b is Some <==> self.base().spec_bias() is Some,
            b matches Some(t) ==> *t == self.base().spec_bias()->Some_0 && tensor_dims(*t)
                == seq![self.base().out_features()],
    {
        self.base.bias()
    }

    /// The shape of the base weight: the number of outputs, then of inputs.
    pub fn shape(&self) -> (dims: Vec<usize>)
        ensures
            dims@ == seq![self.base().out_features(), self.base().in_features()],
    {
        self.base.shape()
    }

    /// The number of adapters on the layer.
    pub fn adapter_count(&self) -> (n: usize)
        ensures
            n == self.adapters().len(),
    {
        self.adapters.len()
    }

    /// Whether adapter `i` takes its input after dropout where the layer
    /// is trained, and with which probability: the bit pattern of the
    /// adapter's dropout probability, or none where the adapter has none or
    /// the layer has no such adapter.
    pub fn takes_dropout(&self, i: usize) -> (bits: Option<u32>)
        ensures
            bits == if i < self.adapters().len() {
                self.adapters()[i as int].dropout_bits()
            } else {
                None
            },
    {
        if i < self.adapters.len() {
            self.adapters[i].dropout_bits()
        } else {
            None
        }
    }

    /// The index of this layer among those that carry adapters.
    #[verifier::when_used_as_spec(spec_layer_index)]
    pub fn layer_index(&self) -> (index: usize)
        ensures
            index == self.layer_index(),
    {
        self.layer_index
    }

    /// The base output plus each adapter's contribution, in the order of
    /// registration: adapter `i` gives `(x @ aᵗ) @ bᵗ`, times alpha over its
    /// rank, times its scalings from `scalings` broadcast over features.
    pub fn lora_forward(&self, x: &Tensor, scalings: Tensor) -> (r: Result<Tensor, LoraError>)
        ensures
            self.forward_result(contents(*x), None, contents(scalings), r),
            self.sure_of(*x, None, scalings) ==> r is Ok,
    {
        self.forward_inputs(x, None, scalings)
    }

    /// As `lora_forward`, with an input of its own for each adapter in
    /// place of `x`: what dropout made of `x` for that adapter, where the
    /// layer is being trained. The base transform still takes `x`.
    pub fn forward_from(&self, x: &Tensor, adapter_inputs: &Vec<Tensor>, scalings: Tensor) -> (r:
        Result<Tensor, LoraError>)
        ensures
            self.forward_result(contents(*x), Some(adapter_inputs@), contents(scalings), r),
            self.sure_of(*x, Some(adapter_inputs@), scalings) ==> r is Ok,
    {
        self.forward_inputs(x, Some(adapter_inputs), scalings)
    }

    /// Whether the input and every input given for an adapter hold floats.
    fn floats_only(x: &Tensor, inputs: Option<&Vec<Tensor>>) -> (floats: bool)
        ensures
            floats == inputs_hold_floats(
                contents(*x),
                match inputs {
                    Some(list) => Some(list@),
                    None => None,
                },
            ),
    {
        if !holds_floats(x) {
            return false;
        }
        if let Some(list) = inputs {
            let mut j: usize = 0;
            while j < list.len()
                invariant
                    j <= list.len(),
                    inputs == Some(list),
                    float_type(tensor_dtype(*x)),
                    forall|k: int| 0 <= k < j ==> float_type(tensor_dtype(#[trigger] list@[k])),
                decreases list.len() - j,
            {
                if !holds_floats(&list[j]) {
                    assert(!float_type(tensor_dtype(list@[j as int])));
                    return false;
                }
                j += 1;
            }
        }
        true
    }

    fn forward_inputs(&self, x: &Tensor, inputs: Option<&Vec<Tensor>>, scalings: Tensor) -> (r:
        Result<Tensor, LoraError>)
        ensures
            self.forward_result(
                contents(*x),
                match inputs {
                    Some(list) => Some(list@),
                    None => None,
                },
                contents(scalings),
                r,
            ),
            self.sure_of(
                *x,
                match inputs {
                    Some(list) => Some(list@),
                    None => None,
                },
                scalings,
            ) ==> r is Ok,
    {
        proof {
            use_type_invariant(self);
        }
        let ghost given = match inputs {
            Some(list) => Some(list@),
            None => None,
        };
        let ghost sure = self.sure_of(*x, given, scalings);
        let n = self.adapters.len();
        let in_features = self.base.in_features();
        let out_features = self.base.out_features();
        let x_dims = dims_of(x);
        if x_dims.len() != 3 || x_dims[2] != in_features || !fits(&x_dims) || !output_fits(
            &x_dims,
            out_features,
        ) {
            return Err(LoraError::ShapeMismatch);
        }
        let mut i: usize = 0;
        while i < n
            invariant
                i <= n,
                n == self.adapters@.len(),
                x_dims@ == tensor_dims(*x),
                x_dims.len() == 3,
                forall|k: int|
                    0 <= k < i ==> dims_fit(
                        linear_out_dims(x_dims@, (#[trigger] self.adapters@[k]).rank()),
                    ),
            decreases n - i,
        {
            if !output_fits(&x_dims, self.adapters[i].rank) {
                assert(self.ranks()[i as int] == self.adapters@[i as int].rank());
                return Err(LoraError::ShapeMismatch);
            }
            i += 1;
        }
        assert(input_fits(
            self.base().in_features(),
            self.base().out_features(),
            self.ranks(),
            x_dims@,
        ));
        if let Some(list) = inputs {
            if list.len() != n {
                return Err(LoraError::ShapeMismatch);
            }
            let mut j: usize = 0;
            while j < n
                invariant
                    j <= n,
                    n == list.len(),
                    n == self.adapters().len(),
                    given == Some(list@),
                    inputs == Some(list),
                    x_dims@ == tensor_dims(*x),
                    input_fits(
                        self.base().in_features(),
                        self.base().out_features(),
                        self.ranks(),
                        x_dims@,
                    ),
                    forall|k: int| 0 <= k < j ==> tensor_dims(#[trigger] list@[k]) == x_dims@,
                decreases n - j,
            {
                let own = dims_of(&list[j]);
                if !same_dims(&own, &x_dims) {
                    assert(tensor_dims(list@[j as int]) != x_dims@);
                    assert(!inputs_fit(self.adapters().len(), x_dims@, given));
                    return Err(LoraError::ShapeMismatch);
                }
                j += 1;
            }
        }
        assert(inputs_fit(self.adapters().len(), x_dims@, given));
        let own = get_maybe_topk_scalings(scalings, self.layer_index)?;
        let s_dims = dims_of(&own);
        if s_dims.len() != 3 || s_dims[2] != n || (s_dims[0] != x_dims[0] && s_dims[0] != 1) || (
        s_dims[1] != x_dims[1] && s_dims[1] != 1) {
            return Err(LoraError::ShapeMismatch);
        }
        if !Self::floats_only(x, inputs) {
            return Err(LoraError::ElementType);
        }
        assert(self.forward_failure(contents(*x), given, contents(scalings)) is None);
        let ghost out_dims = linear_out_dims(x_dims@, out_features);
        let mut sum = self.base.forward(x)?;
        proof {
            lemma_scaled_shapes(x_dims@, s_dims@, out_features);
        }
        let mut i: usize = 0;
        while i < n
            invariant
                i <= n,
                n == self.adapters@.len(),
                self.inv(),
                in_features == self.base.in_features(),
                out_features == self.base.out_features(),
                x_dims@ == tensor_dims(*x),
                s_dims@ == tensor_dims(own),
                s_dims.len() == 3,
                s_dims@[2] == n,
                x_dims.len() == 3,
                out_dims == linear_out_dims(x_dims@, out_features),
                tensor_dims(sum) == out_dims,
                tensor_dtype(sum) == tensor_dtype(*x),
                dims_fit(x_dims@),
                dims_fit(out_dims),
                dims_fit(column_dims(s_dims@).push(1)),
                broadcast_dims(out_dims, column_dims(s_dims@).push(1)) == out_dims,
                forall|k: int|
                    0 <= k < n ==> dims_fit(
                        linear_out_dims(x_dims@, (#[trigger] self.adapters@[k]).rank()),
                    ),
                given == (match inputs {
                    Some(list) => Some(list@),
                    None => None,
                }),
                inputs matches Some(list) ==> list.len() == n && forall|k: int|
                    0 <= k < n ==> tensor_dims(#[trigger] list@[k]) == x_dims@,
                inputs_hold_floats(contents(*x), given),
                self.forward_failure(contents(*x), given, contents(scalings)) is None,
                self.computes(contents(*x), given, contents(own), i as nat, contents(sum)),
                sure == self.sure_of(*x, given, scalings),
                sure ==> tensor_on_cpu(sum) && tensor_on_cpu(own) && tensor_dtype(own)
                    == tensor_dtype(*x),
                broadcast_compatible(out_dims, column_dims(s_dims@).push(1)),
            decreases n - i,
        {
            let adapter = &self.adapters[i];
            let input = match inputs {
                Some(list) => &list[i],
                None => x,
            };
            let selected = select_scaling(&own, i)?;
            proof {
                assert(contents(*input) == input_of(contents(*x), given, i as int));
                assert(adapter.delta_dims(tensor_dims(*input)) =~= out_dims);
                assert(tensor_dims(selected) == column_dims(s_dims@).push(1));
                if sure {
                    assert(self.adapters()[i as int].computes_in(tensor_dtype(*x)));
                    assert(adapter.sure_to_add(sum, *input, selected));
                }
            }
            let ghost before = contents(sum);
            sum = adapter.add_to(sum, input, &selected)?;
            proof {
                let upto = (i + 1) as nat;
                assert((upto - 1) as nat == i as nat);
                assert((upto - 1) as usize == i);
                assert(self.computes(
                    contents(*x),
                    given,
                    contents(own),
                    (upto - 1) as nat,
                    before,
                ));
                assert(self.adds(
                    contents(*x),
                    given,
                    contents(own),
                    (upto - 1) as nat,
                    before,
                    contents(sum),
                ));
                assert(self.computes(contents(*x), given, contents(own), upto, contents(sum)));
            }
            i += 1;
        }
        Ok(sum)
    }
}

/// With a single adapter, what a layer computes is the base transform of
/// the input plus that adapter's contribution on the input: `(x @ aᵗ) @ bᵗ`
/// times alpha over the rank, times the adapter's scalings.
pub proof fn a_single_adapter_adds_to_the_base_output(
    layer: AdapterLayer,
    x: Contents,
    own: Contents,
    out: Contents,
)
    requires
        layer.adapters().len() == 1,
        layer.computes(x, None, own, 1, out),
    ensures
        exists|base: Contents|
            {
                &&& linear_result(
                    contents(layer.base().spec_weight()),
                    contents_of(layer.base().spec_bias()),
                    x,
                    base,
                )
                &&& #[trigger] layer.adapters()[0].contributes(
                    base,
                    x,
                    adapter_scalings(own, 0)->Ok_0,
                    out,
                )
            },
{
    reveal_with_fuel(AdapterLayer::computes, 2);
    let before = choose|before: Contents|
        layer.computes(x, None, own, 0, before) && #[trigger] layer.adds(
            x,
            None,
            own,
            0,
            before,
            out,
        );
    assert(layer.adapters()[0].contributes(before, x, adapter_scalings(own, 0)->Ok_0, out));
}

/// Whether two shapes are the same.
fn same_dims(a: &Vec<usize>, b: &Vec<usize>) -> (same: bool)
    ensures
        same == (a@ == b@),
{
    if a.len() != b.len() {
        return false;
    }
    let mut i: usize = 0;
    while i < a.len()
        invariant
            i <= a.len(),
            a.len() == b.len(),
            forall|k: int| 0 <= k < i ==> a@[k] == b@[k],
        decreases a.len() - i,
    {
        if a[i] != b[i] {
            return false;
        }
        i += 1;
    }
    assert(a@ =~= b@);
    true
}

/// A tensor without axes can be counted, and broadcasting it against a
/// shape leaves the shape.
proof fn lemma_no_axes(dims: Seq<usize>)
    ensures
        dims_fit(Seq::<usize>::empty()),
        broadcast_compatible(dims, Seq::<usize>::empty()),
        broadcast_dims(dims, Seq::<usize>::empty()) == dims,
{
    assert(broadcast_dims(dims, Seq::<usize>::empty()) =~= dims);
}

/// For an input `x` of three axes and scalings `s` that fit it: the
/// selected scalings `[s0, s1, 1]` can be counted, and they do not change
/// the output's shape when broadcast against it.
proof fn lemma_scaled_shapes(x: Seq<usize>, s: Seq<usize>, out_features: usize)
    requires
        x.len() == 3,
        s.len() == 3,
        s[0] == x[0] || s[0] == 1,
        s[1] == x[1] || s[1] == 1,
        dims_fit(x),
    ensures
        dims_fit(column_dims(s).push(1)),
        broadcast_compatible(linear_out_dims(x, out_features), column_dims(s).push(1)),
        broadcast_dims(linear_out_dims(x, out_features), column_dims(s).push(1))
            == linear_out_dims(x, out_features),
{
    let out = linear_out_dims(x, out_features);
    let sel = column_dims(s).push(1);
    assert(broadcast_dims(out, sel) =~= out);
    reveal_with_fuel(prefix_product, 4);
    assert(prefix_product(x, 2) <= usize::MAX);
    assert(prefix_product(x, 0) == 1);
    assert(prefix_product(x, 1) == prefix_product(x, 0) * x[0]);
    assert(prefix_product(x, 2) == prefix_product(x, 1) * x[1]);
    assert(prefix_product(x, 2) == x[0] * x[1]);
    reveal_with_fuel(suffix_product, 4);
    assert forall|n: int| 0 <= n <= sel.len() implies #[trigger] suffix_product(sel, n)
        <= usize::MAX by {
        assert(suffix_product(sel, 0) == 1);
        assert(suffix_product(sel, 1) == suffix_product(sel, 0) * sel[2]);
        assert(suffix_product(sel, 2) == suffix_product(sel, 1) * sel[1]);
        assert(suffix_product(sel, 3) == suffix_product(sel, 2) * sel[0]);
        assert(suffix_product(sel, 2) == s[1]);
        assert(s[1] * s[0] <= usize::MAX) by (nonlinear_arith)
            requires
                s[0] == x[0] || s[0] == 1,
                s[1] == x[1] || s[1] == 1,
                x[0] * x[1] <= usize::MAX,
                s[0] <= usize::MAX,
                s[1] <= usize::MAX,
        ;
    }
    assert forall|n: int| 0 <= n <= sel.len() implies #[trigger] prefix_product(sel, n)
        <= usize::MAX by {
        assert(prefix_product(sel, 0) == 1);
        assert(prefix_product(sel, 1) == s[0]);
        assert(prefix_product(sel, 2) == s[0] * s[1]);
        assert(prefix_product(sel, 3) == prefix_product(sel, 2) * sel[2]);
        assert(s[0] * s[1] <= usize::MAX) by (nonlinear_arith)
            requires
                s[0] == x[0] || s[0] == 1,
                s[1] == x[1] || s[1] == 1,
                x[0] * x[1] <= usize::MAX,
                s[0] <= usize::MAX,
                s[1] <= usize::MAX,
        ;
    }
}

/// The ratio of alpha to the rank, computed by the engine in double
/// precision and converted to the element type of `like`.
fn alpha_over_rank(alpha_bits: u64, rank: usize, like: &Tensor) -> (r: Result<
    Tensor,
    candle_core::Error,
>)
    requires
        rank <= i64::MAX,
    ensures
        r is Ok ==> tensor_dims(r->Ok_0) == Seq::<usize>::empty(),
        r is Ok ==> is_alpha_over_rank(alpha_bits, rank, tensor_dtype(*like), contents(r->Ok_0)),
        r is Ok ==> tensor_dtype(r->Ok_0) == tensor_dtype(*like),
        r is Ok ==> tensor_on_cpu(r->Ok_0) == tensor_on_cpu(*like),
        tensor_on_cpu(*like) && multiplies_in(tensor_dtype(*like)) ==> r is Ok,
{
    proof {
        lemma_no_axes(Seq::<usize>::empty());
    }
    let alpha = scalar_like(alpha_bits, DType::F64, like)?;
    let count = scalar_like(rank as u64, DType::I64, like)?;
    let count_as_double = to_dtype(&count, DType::F64)?;
    let ratio = div_tensors(&alpha, &count_as_double)?;
    let scale = to_dtype(&ratio, dtype_of(like))?;
    proof {
        assert(contents(alpha) == scalar(alpha_bits, DType::F64));
        assert(contents(count) == scalar(rank as u64, DType::I64));
        assert(quotient_of(
            scalar(alpha_bits, DType::F64),
            contents(count_as_double),
            contents(ratio),
        ));
    }
    Ok(scale)
}

} // verus!
