//! Building the layer for one module: frozen, or with adapters.

use candle_core::Tensor;
use std::sync::Arc;
use vstd::prelude::*;

use crate::adapter::{is_alpha_over_rank, Adapter, AdapterLayer};
use crate::config::LoraConfig;
use crate::engine::{
    contents, contents_of, linear_result, shape_of, tensor_dims, tensor_dtype, Contents,
};
use crate::error::{engine_outcome, LoraError};
use crate::frozen::FrozenLayer;
use crate::layer::{LinearLayerLike, LoraLayer};
use crate::names::{last_segment, last_segment_of};
use crate::shape::dims_fit;
use crate::store::{
    drawn_from, linear_from, linear_no_bias_from, load_linear, load_linear_no_bias, load_or_draw,
    load_or_zero, prefix_of, store_prefix, zeroed_from, VarStore,
};

verus! {

/// What becomes of a module: it is left as it is, or it gets the adapters.
#[derive(Clone, Copy, Debug, PartialEq, Eq, Structural)]
pub enum Placement {
    Frozen,
    Adapted,
}

/// Every configuration targets the set of modules that the first targets.
pub open spec fn configs_agree(configs: Seq<(String, LoraConfig)>) -> bool {
    forall|i: int|
        0 <= i < configs.len() ==> (#[trigger] configs[i]).1.targets() == configs[0].1.targets()
}

/// The decision for the module named `module`: configurations that do not
/// agree on their targets are refused; otherwise the module gets the
/// adapters if and only if it is among the targets.
pub open spec fn placement(module: Seq<char>, configs: Seq<(String, LoraConfig)>) -> Result<
    Placement,
    LoraError,
> {
    if !configs_agree(configs) {
        Err(LoraError::ConfigMismatch)
    } else if configs[0].1.targets().contains(module) {
        Ok(Placement::Adapted)
    } else {
        Ok(Placement::Frozen)
    }
}

/// Configurations that all target one set of modules are never refused.
pub proof fn agreeing_configs_are_placed(module: Seq<char>, configs: Seq<(String, LoraConfig)>)
    requires
        forall|i: int, j: int|
            0 <= i < configs.len() && 0 <= j < configs.len() ==> (#[trigger] configs[i]).1.targets()
                == (#[trigger] configs[j]).1.targets(),
    ensures
        placement(module, configs) is Ok,
{
    if configs.len() > 0 {
        assert forall|i: int| 0 <= i < configs.len() implies (#[trigger] configs[i]).1.targets()
            == configs[0].1.targets() by {
            let first = configs[0];
        }
    }
}

/// Two configurations with different targets, wherever they stand in the
/// list, make the list refused with a configuration mismatch.
pub proof fn differing_configs_are_refused(
    module: Seq<char>,
    configs: Seq<(String, LoraConfig)>,
    i: int,
    j: int,
)
    requires
        0 <= i < configs.len(),
        0 <= j < configs.len(),
        configs[i].1.targets() != configs[j].1.targets(),
    ensures
        placement(module, configs) == Err::<Placement, LoraError>(LoraError::ConfigMismatch),
{
    if configs_agree(configs) {
        assert(configs[i].1.targets() == configs[0].1.targets());
        assert(configs[j].1.targets() == configs[0].1.targets());
    }
}

/// A module that the agreed targets do not name stays frozen, however many
/// adapters are configured.
pub proof fn untargeted_modules_stay_frozen(module: Seq<char>, configs: Seq<(String, LoraConfig)>)
    requires
        configs_agree(configs),
        !configs[0].1.targets().contains(module),
    ensures
        placement(module, configs) == Ok::<Placement, LoraError>(Placement::Frozen),
{
}

/// Decides what becomes of the module named `module`.
pub fn place(module: &String, lora_config: &Vec<(String, LoraConfig)>) -> (r: Result<
    Placement,
    LoraError,
>)
    requires
        lora_config.len() > 0,
    ensures
        r == placement(module@, lora_config@),
{
    let mut i: usize = 1;
    while i < lora_config.len()
        invariant
            1 <= i <= lora_config.len(),
            forall|k: int|
                0 <= k < i ==> (#[trigger] lora_config@[k]).1.targets()
                    == lora_config@[0].1.targets(),
        decreases lora_config.len() - i,
    {
        if !lora_config[i].1.same_targets(&lora_config[0].1) {
            return Err(LoraError::ConfigMismatch);
        }
        i += 1;
    }
    if lora_config[0].1.targets_module(module) {
        Ok(Placement::Adapted)
    } else {
        Ok(Placement::Frozen)
    }
}

/// `base` is the base transform of `d1` inputs and `d2` outputs that was
/// loaded from the store: its tensors are what the store handed out for a
/// linear layer at its path, with a bias or without.
pub open spec fn loaded_base(
    store: VarStore,
    d1: usize,
    d2: usize,
    with_bias: bool,
    base: FrozenLayer,
) -> bool {
    &&& base.in_features() == d1
    &&& base.out_features() == d2
    &&& base.well_shaped()
    &&& base_from(store, d1, d2, with_bias, base.spec_weight(), base.spec_bias())
}

/// Whether two tensors of these shapes are the factors of an adapter of
/// the given rank on a layer of `d1` inputs and `d2` outputs: the first is
/// `[rank, d1]`, the second `[d2, rank]`, the rank can be handed to the
/// engine as a signed number, and the engine can count both.
pub open spec fn factors_sized(d1: usize, d2: usize, rank: usize, a: Seq<usize>, b: Seq<usize>) -> bool {
    &&& a == seq![rank, d1]
    &&& b == seq![d2, rank]
    &&& rank <= i64::MAX
    &&& dims_fit(a)
    &&& dims_fit(b)
}

/// `a` and `b` are what the store handed out for the factors of the
/// adapter named `name` of the given rank, on a layer of `d1` inputs and
/// `d2` outputs: the tensor `weight` at `lora_A` and the name, asked for as
/// `[rank, d1]` and drawn where the store makes it; and the tensor `weight`
/// at `lora_B` and the name, asked for as `[d2, rank]` and zero where the
/// store makes it.
pub open spec fn factors_from(
    store: VarStore,
    d1: usize,
    d2: usize,
    name: Seq<char>,
    rank: usize,
    a: Tensor,
    b: Tensor,
) -> bool {
    &&& drawn_from(store, "lora_A"@, name, "weight"@, rank, d1, a)
    &&& zeroed_from(store, "lora_B"@, name, "weight"@, d2, rank, b)
}

/// `adapter` is the adapter named `name` that was loaded from the store
/// for a layer of `d1` inputs and `d2` outputs under `config`: its factors
/// are what the store handed out for them, its alpha, its rank and its
/// dropout probability are the configuration's, and its scale is the
/// engine's ratio of alpha to the rank.
pub open spec fn loaded_adapter(
    store: VarStore,
    d1: usize,
    d2: usize,
    name: Seq<char>,
    config: LoraConfig,
    adapter: Adapter,
) -> bool {
    &&& factors_from(store, d1, d2, name, config.rank(), adapter.spec_a(), adapter.spec_b())
    &&& adapter.alpha_bits() == config.alpha_bits()
    &&& adapter.dropout_bits() == config.dropout_bits()
    &&& adapter.rank() == config.rank()
    &&& adapter.in_features() == d1
    &&& adapter.out_features() == d2
    &&& is_alpha_over_rank(
        config.alpha_bits(),
        config.rank(),
        tensor_dtype(adapter.spec_b()),
        contents(adapter.spec_scale()),
    )
}

/// The store handed out, for the base transform, tensors of another shape
/// than was asked for.
pub open spec fn base_misshaped(store: VarStore, d1: usize, d2: usize, with_bias: bool) -> bool {
    exists|weight: Tensor, bias: Option<Tensor>|
        {
            &&& #[trigger] base_from(store, d1, d2, with_bias, weight, bias)
            &&& !base_sized(d1, d2, with_bias, weight, bias)
        }
}

/// `weight` and `bias` are what the store handed out for a linear layer of
/// `d1` inputs and `d2` outputs at its path, asked for with a bias or
/// without.
pub open spec fn base_from(
    store: VarStore,
    d1: usize,
    d2: usize,
    with_bias: bool,
    weight: Tensor,
    bias: Option<Tensor>,
) -> bool {
    if with_bias {
        bias is Some && linear_from(store, d1, d2, weight, bias->Some_0)
    } else {
        bias is None && linear_no_bias_from(store, d1, d2, weight)
    }
}

/// Whether the tensors make the base transform of `d1` inputs and `d2`
/// outputs, with a bias or without.
pub open spec fn base_sized(
    d1: usize,
    d2: usize,
    with_bias: bool,
    weight: Tensor,
    bias: Option<Tensor>,
) -> bool {
    &&& tensor_dims(weight) == seq![d2, d1]
    &&& dims_fit(seq![d2, d1])
    &&& bias is Some == with_bias
    &&& bias matches Some(b) ==> tensor_dims(b) == seq![d2]
}

/// The store handed out, for the adapter named `name`, factors of another
/// shape than was asked for.
pub open spec fn factors_misshaped(
    store: VarStore,
    d1: usize,
    d2: usize,
    name: Seq<char>,
    rank: usize,
) -> bool {
    exists|a: Tensor, b: Tensor|
        {
            &&& #[trigger] factors_from(store, d1, d2, name, rank, a, b)
            &&& !factors_sized(d1, d2, rank, tensor_dims(a), tensor_dims(b))
        }
}

/// What `linear` and `linear_no_bias` return for a layer of `d1` inputs and
/// `d2` outputs from the store, and what they leave in the counter.
///
/// Refused configurations give the mismatch and touch nothing. A module
/// that stays frozen gives the base transform loaded from the store and
/// leaves the counter. A module that gets the adapters gives a layer of
/// that base transform with one adapter for each configuration, loaded
/// under the configuration's name and in the list's order; the layer takes
/// the counter's value as its index and the counter goes up by one. Where
/// the store or the engine fails, their failure is returned and the counter
/// is left; a shape mismatch is returned only where the store handed out a
/// tensor of another shape than was asked for.
pub open spec fn built(
    d1: usize,
    d2: usize,
    store: VarStore,
    configs: Seq<(String, LoraConfig)>,
    with_bias: bool,
    count_before: usize,
    count_after: usize,
    r: Result<Arc<LoraLayer>, LoraError>,
) -> bool {
    match placement(last_segment_of(store_prefix(store)), configs) {
        Err(e) => r == Err::<Arc<LoraLayer>, LoraError>(e) && count_after == count_before,
        Ok(Placement::Frozen) => {
            &&& count_after == count_before
            &&& match r {
                Ok(layer) => {
                    &&& *layer matches LoraLayer::Frozen(frozen)
                    &&& loaded_base(store, d1, d2, with_bias, frozen)
                },
                Err(e) => e is Engine || (e is ShapeMismatch && base_misshaped(
                    store,
                    d1,
                    d2,
                    with_bias,
                )),
            }
        },
        Ok(Placement::Adapted) => match r {
            Ok(layer) => {
                &&& count_after == count_before + 1
                &&& *layer matches LoraLayer::Adapted(adapted)
                &&& loaded_base(store, d1, d2, with_bias, adapted.base())
                &&& adapted.layer_index() == count_before
                &&& adapted.adapters().len() == configs.len()
                &&& forall|i: int|
                    0 <= i < configs.len() ==> loaded_adapter(
                        store,
                        d1,
                        d2,
                        configs[i].0@,
                        configs[i].1,
                        #[trigger] adapted.adapters()[i],
                    )
            },
            Err(e) => {
                &&& count_after == count_before
                &&& e is Engine || (e is ShapeMismatch && (base_misshaped(
                    store,
                    d1,
                    d2,
                    with_bias,
                ) || exists|i: int|
                    0 <= i < configs.len() && #[trigger] factors_misshaped(
                        store,
                        d1,
                        d2,
                        configs[i].0@,
                        configs[i].1.rank(),
                    )))
            },
        },
    }
}

/// Wherever two configurations of the list differ in their targets, the
/// build is refused with a configuration mismatch, whether or not the
/// module is a target, and the counter is left.
pub proof fn differing_configs_build_nothing(
    d1: usize,
    d2: usize,
    store: VarStore,
    configs: Seq<(String, LoraConfig)>,
    with_bias: bool,
    count_before: usize,
    count_after: usize,
    r: Result<Arc<LoraLayer>, LoraError>,
    i: int,
    j: int,
)
    requires
        built(d1, d2, store, configs, with_bias, count_before, count_after, r),
        0 <= i < configs.len(),
        0 <= j < configs.len(),
        configs[i].1.targets() != configs[j].1.targets(),
    ensures
        r == Err::<Arc<LoraLayer>, LoraError>(LoraError::ConfigMismatch),
        count_after == count_before,
{
    differing_configs_are_refused(last_segment_of(store_prefix(store)), configs, i, j);
}

/// Configurations that all target one set of modules are never refused:
/// a failure of the build is then the store's or the engine's, or a tensor
/// of another shape than was asked for.
pub proof fn agreeing_configs_fail_only_at_the_store(
    d1: usize,
    d2: usize,
    store: VarStore,
    configs: Seq<(String, LoraConfig)>,
    with_bias: bool,
    count_before: usize,
    count_after: usize,
    r: Result<Arc<LoraLayer>, LoraError>,
)
    requires
        built(d1, d2, store, configs, with_bias, count_before, count_after, r),
        forall|i: int, j: int|
            0 <= i < configs.len() && 0 <= j < configs.len() ==> (#[trigger] configs[i]).1.targets()
                == (#[trigger] configs[j]).1.targets(),
    ensures
        r matches Err(e) ==> (e is Engine || e is ShapeMismatch) && count_after == count_before,
{
    agreeing_configs_are_placed(last_segment_of(store_prefix(store)), configs);
}

/// The handle built for a module that the agreed targets do not name is
/// the base transform loaded from the store, however many adapters are
/// configured and whatever their ranks and alphas: whatever the scalings,
/// a result of its forward pass is the engine's linear transform of the
/// store's weight, the store's bias where the layer has one, and the
/// input.
pub proof fn untargeted_modules_forward_as_the_base_transform(
    d1: usize,
    d2: usize,
    store: VarStore,
    configs: Seq<(String, LoraConfig)>,
    with_bias: bool,
    count_before: usize,
    count_after: usize,
    layer: Arc<LoraLayer>,
    x: Contents,
    scalings: Contents,
    out: Result<Tensor, LoraError>,
)
    requires
        built(
            d1,
            d2,
            store,
            configs,
            with_bias,
            count_before,
            count_after,
            Ok::<Arc<LoraLayer>, LoraError>(layer),
        ),
        configs_agree(configs),
        !configs[0].1.targets().contains(last_segment_of(store_prefix(store))),
        layer.forward_spec(x, scalings, out),
    ensures
        count_after == count_before,
        *layer matches LoraLayer::Frozen(frozen) && loaded_base(store, d1, d2, with_bias, frozen)
            && (out matches Ok(t) ==> linear_result(
            contents(frozen.spec_weight()),
            contents_of(frozen.spec_bias()),
            x,
            contents(t),
        )),
{
    untargeted_modules_stay_frozen(last_segment_of(store_prefix(store)), configs);
}

/// The module at the store's path gets the adapters of the configurations.
pub open spec fn adapts(store: VarStore, configs: Seq<(String, LoraConfig)>) -> bool {
    placement(last_segment_of(store_prefix(store)), configs) == Ok::<Placement, LoraError>(
        Placement::Adapted,
    )
}

/// The name by which the module at the store's path is matched: the last
/// segment of the path.
pub fn module_of(store: &VarStore) -> (module: String)
    ensures
        module@ == last_segment_of(store_prefix(*store)),
{
    let prefix = prefix_of(store);
    last_segment(prefix.as_str())
}

/// Builds the layer for the module at the store's path, with a bias.
///
/// The module is matched by the last segment of the path. `count` is the
/// number of layers that carry adapters so far; it must have room for one
/// more where the module gets the adapters.
pub fn linear(
    d1: usize,
    d2: usize,
    vb: VarStore,
    lora_config: &Vec<(String, LoraConfig)>,
    count: &mut usize,
) -> (r: Result<Arc<LoraLayer>, LoraError>)
    requires
        lora_config.len() > 0,
        adapts(vb, lora_config@) ==> *old(count) < usize::MAX,
    ensures
        built(d1, d2, vb, lora_config@, true, *old(count), *final(count), r),
{
    build(d1, d2, vb, lora_config, count, true)
}

/// Builds the layer for the module at the store's path, without a bias.
///
/// The module is matched by the last segment of the path. `count` is the
/// number of layers that carry adapters so far; it must have room for one
/// more where the module gets the adapters.
pub fn linear_no_bias(
    d1: usize,
    d2: usize,
    vb: VarStore,
    lora_config: &Vec<(String, LoraConfig)>,
    count: &mut usize,
) -> (r: Result<Arc<LoraLayer>, LoraError>)
    requires
        lora_config.len() > 0,
        adapts(vb, lora_config@) ==> *old(count) < usize::MAX,
    ensures
        built(d1, d2, vb, lora_config@, false, *old(count), *final(count), r),
{
    build(d1, d2, vb, lora_config, count, false)
}

/// The base transform of `d1` inputs and `d2` outputs out of what the store
/// handed out, where that has the shape that was asked for.
pub fn base_layer(d1: usize, d2: usize, with_bias: bool, weight: Tensor, bias: Option<
    Tensor,
>) -> (r: Result<FrozenLayer, LoraError>)
    ensures
        match r {
            Ok(layer) => {
                &&& layer.spec_weight() == weight
                &&& layer.spec_bias() == bias
                &&& layer.in_features() == d1
                &&& layer.out_features() == d2
                &&& layer.well_shaped()
            },
            Err(e) => e is ShapeMismatch,
        },
        r is Ok <==> base_sized(d1, d2, with_bias, weight, bias),
{
    if bias.is_some() != with_bias {
        return Err(LoraError::ShapeMismatch);
    }
    let layer = FrozenLayer::new(weight, bias)?;
    if layer.in_features() != d1 || layer.out_features() != d2 {
        return Err(LoraError::ShapeMismatch);
    }
    Ok(layer)
}

/// The adapter of the given rank on a layer of `d1` inputs and `d2`
/// outputs out of the factors that the store handed out, where they have
/// the shapes that were asked for. For factors of those shapes the scale is
/// the engine's to compute, and a failure of the engine is passed on.
pub fn sized_adapter(
    d1: usize,
    d2: usize,
    rank: usize,
    a: Tensor,
    b: Tensor,
    alpha_bits: u64,
    dropout_bits: Option<u32>,
) -> (r: Result<Adapter, LoraError>)
    ensures
        !factors_sized(d1, d2, rank, tensor_dims(a), tensor_dims(b)) ==> r == Err::<
            Adapter,
            LoraError,
        >(LoraError::ShapeMismatch),
        factors_sized(d1, d2, rank, tensor_dims(a), tensor_dims(b)) ==> match r {
            Ok(adapter) => {
                &&& adapter.spec_a() == a
                &&& adapter.spec_b() == b
                &&& adapter.alpha_bits() == alpha_bits
                &&& adapter.dropout_bits() == dropout_bits
                &&& adapter.rank() == rank
                &&& adapter.in_features() == d1
                &&& adapter.out_features() == d2
                &&& is_alpha_over_rank(
                    alpha_bits,
                    rank,
                    tensor_dtype(b),
                    contents(adapter.spec_scale()),
                )
            },
            Err(e) => e is Engine,
        },
{
    let a_dims = shape_of(&a);
    let b_dims = shape_of(&b);
    if a_dims.len() != 2 || b_dims.len() != 2 {
        return Err(LoraError::ShapeMismatch);
    }
    if a_dims[0] != rank || a_dims[1] != d1 || b_dims[0] != d2 || b_dims[1] != rank {
        return Err(LoraError::ShapeMismatch);
    }
    assert(a_dims@ =~= seq![rank, d1]);
    assert(b_dims@ =~= seq![d2, rank]);
    Adapter::new(a, b, alpha_bits, dropout_bits)
}

/// Loads the base transform of `d1` inputs and `d2` outputs from the
/// store: the store is asked for a linear layer at its path, with a bias
/// or without, and what it hands out must have the shape asked for.
pub fn load_base(store: &VarStore, d1: usize, d2: usize, with_bias: bool) -> (r: Result<
    FrozenLayer,
    LoraError,
>)
    ensures
        match r {
            Ok(base) => loaded_base(*store, d1, d2, with_bias, base),
            Err(e) => e is Engine || (e is ShapeMismatch && base_misshaped(
                *store,
                d1,
                d2,
                with_bias,
            )),
        },
{
    let loaded = if with_bias {
        load_linear(store, d1, d2)
    } else {
        load_linear_no_bias(store, d1, d2)
    };
    let (weight, bias) = engine_outcome(loaded)?;
    proof {
        assert(base_from(*store, d1, d2, with_bias, weight, bias));
    }
    base_layer(d1, d2, with_bias, weight, bias)
}

/// Loads the adapter named `name` for a layer of `d1` inputs and `d2`
/// outputs from the store: the store is asked for the first factor at
/// `lora_A` and the name as `[rank, d1]`, and for the second at `lora_B`
/// and the name as `[d2, rank]`; what it hands out must have those shapes.
/// The adapter takes its alpha, its rank and its dropout probability from
/// the configuration.
pub fn load_adapter(store: &VarStore, d1: usize, d2: usize, name: &str, config: &LoraConfig) -> (r:
    Result<Adapter, LoraError>)
    ensures
        match r {
            Ok(adapter) => loaded_adapter(*store, d1, d2, name@, *config, adapter),
            Err(e) => e is Engine || (e is ShapeMismatch && factors_misshaped(
                *store,
                d1,
                d2,
                name@,
                config.rank(),
            )),
        },
{
    let rank = config.rank();
    let a = engine_outcome(load_or_draw(store, "lora_A", name, "weight", rank, d1))?;
    let b = engine_outcome(load_or_zero(store, "lora_B", name, "weight", d2, rank))?;
    proof {
        assert(factors_from(*store, d1, d2, name@, rank, a, b));
    }
    sized_adapter(d1, d2, rank, a, b, config.alpha_bits(), config.dropout_bits())
}

fn build(
    d1: usize,
    d2: usize,
    vb: VarStore,
    lora_config: &Vec<(String, LoraConfig)>,
    count: &mut usize,
    with_bias: bool,
) -> (r: Result<Arc<LoraLayer>, LoraError>)
    requires
        lora_config.len() > 0,
        adapts(vb, lora_config@) ==> *old(count) < usize::MAX,
    ensures
        built(d1, d2, vb, lora_config@, with_bias, *old(count), *final(count), r),
{
    let module = module_of(&vb);
    let decision = place(&module, lora_config)?;
    let base = load_base(&vb, d1, d2, with_bias)?;
    if decision == Placement::Frozen {
        return Ok(Arc::new(LoraLayer::Frozen(base)));
    }
    let mut adapters: Vec<Adapter> = Vec::new();
    let mut i: usize = 0;
    while i < lora_config.len()
        invariant
            i <= lora_config.len(),
            adapters.len() == i,
            *count == *old(count),
            adapts(vb, lora_config@),
            forall|k: int|
                0 <= k < i ==> loaded_adapter(
                    vb,
                    d1,
                    d2,
                    lora_config@[k].0@,
                    lora_config@[k].1,
                    #[trigger] adapters@[k],
                ),
        decreases lora_config.len() - i,
    {
        let loaded = load_adapter(&vb, d1, d2, lora_config[i].0.as_str(), &lora_config[i].1);
        proof {
            if loaded is Err && loaded->Err_0 is ShapeMismatch {
                assert(factors_misshaped(
                    vb,
                    d1,
                    d2,
                    lora_config@[i as int].0@,
                    lora_config@[i as int].1.rank(),
                ));
            }
        }
        adapters.push(loaded?);
        i += 1;
    }
    let layer = AdapterLayer::new(base, adapters, *count)?;
    *count += 1;
    Ok(Arc::new(LoraLayer::Adapted(layer)))
}

} // verus!
