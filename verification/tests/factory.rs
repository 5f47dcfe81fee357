use std::collections::HashMap;

use candle_core::{DType, Device, Tensor};
use candle_nn::VarBuilder;
use lora_layers::config::LoraConfig;
use lora_layers::error::LoraError;
use lora_layers::factory::{
    base_layer, linear, linear_no_bias, load_adapter, load_base, module_of, place,
    sized_adapter, Placement,
};
use lora_layers::layer::{LinearLayerLike, LoraLayer};
use lora_layers::store::VarStore;

const PATH: &str = "model.layers.0.self_attn.q_proj";

fn names(list: &[&str]) -> Vec<String> {
    list.iter().map(|s| s.to_string()).collect()
}

fn config(rank: usize, alpha: f64, targets: &[&str]) -> LoraConfig {
    LoraConfig::new(rank, alpha.to_bits(), None, names(targets))
}

/// A store with a 4-to-4 layer at `PATH` and the factors of the adapters
/// `first` (rank 2) and `second` (rank 1).
fn tensors() -> HashMap<String, Tensor> {
    let mut map = HashMap::new();
    let weight = Tensor::new(
        &[[1f32, 2., 3., 4.], [5., 6., 7., 8.], [9., 10., 11., 12.], [13., 14., 15., 16.]],
        &Device::Cpu,
    )
    .unwrap();
    map.insert(format!("{PATH}.weight"), weight);
    map.insert(format!("{PATH}.bias"), Tensor::new(&[0.5f32, 0.5, 0.5, 0.5], &Device::Cpu).unwrap());
    map.insert(
        format!("{PATH}.lora_A.first.weight"),
        Tensor::new(&[[1f32, 0., 0., 0.], [0., 1., 0., 0.]], &Device::Cpu).unwrap(),
    );
    map.insert(
        format!("{PATH}.lora_B.first.weight"),
        Tensor::new(&[[1f32, 0.], [0., 1.], [0., 0.], [0., 0.]], &Device::Cpu).unwrap(),
    );
    map.insert(
        format!("{PATH}.lora_A.second.weight"),
        Tensor::new(&[[0f32, 0., 0., 1.]], &Device::Cpu).unwrap(),
    );
    map.insert(
        format!("{PATH}.lora_B.second.weight"),
        Tensor::new(&[[0f32], [0.], [3.], [0.]], &Device::Cpu).unwrap(),
    );
    map
}

fn store_at(map: HashMap<String, Tensor>, path: &str) -> VarStore<'static> {
    VarStore { inner: VarBuilder::from_tensors(map, DType::F32, &Device::Cpu).pp(path) }
}

fn store() -> VarStore<'static> {
    store_at(tensors(), PATH)
}

fn unit_input() -> Tensor {
    Tensor::new(&[[[1f32, 0., 0., 0.]]], &Device::Cpu).unwrap()
}

fn flat(t: &Tensor) -> Vec<f32> {
    t.flatten_all().unwrap().to_vec1::<f32>().unwrap()
}

#[test]
fn place_adapts_targeted_modules_and_freezes_the_rest() {
    let configs = vec![
        ("first".to_string(), config(2, 4.0, &["q_proj", "v_proj"])),
        ("second".to_string(), config(1, 1.0, &["v_proj", "q_proj"])),
    ];
    assert_eq!(place(&"q_proj".to_string(), &configs).unwrap(), Placement::Adapted);
    assert_eq!(place(&"v_proj".to_string(), &configs).unwrap(), Placement::Adapted);
    assert_eq!(place(&"k_proj".to_string(), &configs).unwrap(), Placement::Frozen);
    assert_eq!(place(&"".to_string(), &configs).unwrap(), Placement::Frozen);
}

#[test]
fn place_refuses_configs_with_different_targets() {
    let configs = vec![
        ("first".to_string(), config(2, 4.0, &["q_proj", "v_proj"])),
        ("second".to_string(), config(2, 4.0, &["q_proj"])),
    ];
    assert!(matches!(place(&"q_proj".to_string(), &configs), Err(LoraError::ConfigMismatch)));
    assert!(matches!(place(&"k_proj".to_string(), &configs), Err(LoraError::ConfigMismatch)));
    let later = vec![
        ("a".to_string(), config(2, 4.0, &["q_proj"])),
        ("b".to_string(), config(2, 4.0, &["q_proj"])),
        ("c".to_string(), config(2, 4.0, &["k_proj"])),
    ];
    assert!(matches!(place(&"q_proj".to_string(), &later), Err(LoraError::ConfigMismatch)));
}

#[test]
fn place_takes_a_single_config() {
    let configs = vec![("only".to_string(), config(2, 4.0, &["q_proj"]))];
    assert_eq!(place(&"q_proj".to_string(), &configs).unwrap(), Placement::Adapted);
    assert_eq!(place(&"o_proj".to_string(), &configs).unwrap(), Placement::Frozen);
}

#[test]
fn base_layer_checks_what_the_store_handed_out() {
    let weight = Tensor::zeros((3, 5), DType::F32, &Device::Cpu).unwrap();
    let bias = Tensor::zeros(3, DType::F32, &Device::Cpu).unwrap();
    let layer = base_layer(5, 3, true, weight.clone(), Some(bias.clone())).unwrap();
    assert_eq!(layer.shape(), vec![3, 5]);
    assert!(base_layer(5, 3, false, weight.clone(), None).is_ok());
    assert!(matches!(base_layer(3, 5, true, weight.clone(), Some(bias.clone())), Err(LoraError::ShapeMismatch)));
    assert!(matches!(base_layer(5, 3, true, weight.clone(), None), Err(LoraError::ShapeMismatch)));
    assert!(matches!(base_layer(5, 3, false, weight, Some(bias)), Err(LoraError::ShapeMismatch)));
}

#[test]
fn linear_leaves_an_untargeted_module_frozen() {
    let configs = vec![
        ("first".to_string(), config(2, 4.0, &["k_proj", "v_proj"])),
        ("second".to_string(), config(1, 1.0, &["k_proj", "v_proj"])),
    ];
    let mut count = 3;
    let layer = linear(4, 4, store(), &configs, &mut count).unwrap();
    assert_eq!(count, 3);
    assert!(matches!(*layer, LoraLayer::Frozen(_)));
    assert_eq!(layer.shape(), vec![4, 4]);
    assert_eq!(flat(layer.bias().unwrap()), vec![0.5, 0.5, 0.5, 0.5]);
    // whatever the scalings, the output is the base transform's
    let scalings = Tensor::ones((1, 1, 2), DType::F32, &Device::Cpu).unwrap();
    let out = layer.lora_forward(&unit_input(), scalings).unwrap();
    assert_eq!(flat(&out), vec![1.5, 5.5, 9.5, 13.5]);
}

#[test]
fn linear_gives_a_targeted_module_its_adapters() {
    let configs = vec![
        ("first".to_string(), config(2, 4.0, &["q_proj"])),
        ("second".to_string(), config(1, 2.0, &["q_proj"])),
    ];
    let mut count = 3;
    let layer = linear(4, 4, store(), &configs, &mut count).unwrap();
    assert_eq!(count, 4);
    match &*layer {
        LoraLayer::Adapted(adapted) => {
            assert_eq!(adapted.adapter_count(), 2);
            assert_eq!(adapted.layer_index(), 3);
        }
        LoraLayer::Frozen(_) => panic!("the module is targeted"),
    }
    let x = Tensor::new(&[[[1f32, 0., 0., 1.]]], &Device::Cpu).unwrap();
    let scalings = Tensor::new(&[[[1f32, 1.]]], &Device::Cpu).unwrap();
    let out = layer.lora_forward(&x, scalings).unwrap();
    // base [5.5, 13.5, 21.5, 29.5]; first: 2 * [1, 0, 0, 0]; second: 2 * [0, 0, 3, 0]
    assert_eq!(flat(&out), vec![7.5, 13.5, 27.5, 29.5]);
}

#[test]
fn linear_matches_the_module_by_the_last_segment_only() {
    let configs = vec![("first".to_string(), config(2, 4.0, &["self_attn"]))];
    let mut count = 0;
    let layer = linear(4, 4, store(), &configs, &mut count).unwrap();
    assert!(matches!(*layer, LoraLayer::Frozen(_)));
    assert_eq!(count, 0);
    let whole = vec![("first".to_string(), config(2, 4.0, &[PATH]))];
    let layer = linear(4, 4, store(), &whole, &mut count).unwrap();
    assert!(matches!(*layer, LoraLayer::Frozen(_)));
    assert_eq!(count, 0);
}

#[test]
fn linear_refuses_configs_with_different_targets() {
    let configs = vec![
        ("first".to_string(), config(2, 4.0, &["q_proj"])),
        ("second".to_string(), config(1, 2.0, &["q_proj", "v_proj"])),
    ];
    let mut count = 1;
    assert!(matches!(linear(4, 4, store(), &configs, &mut count), Err(LoraError::ConfigMismatch)));
    assert_eq!(count, 1);
    // the mismatch is found whatever the store holds
    let empty = store_at(HashMap::new(), "nowhere");
    assert!(matches!(linear(4, 4, empty, &configs, &mut count), Err(LoraError::ConfigMismatch)));
    assert_eq!(count, 1);
}

#[test]
fn linear_counts_one_for_each_adapted_module() {
    let mut map = tensors();
    for (key, value) in tensors() {
        map.insert(key.replace("q_proj", "k_proj"), value.clone());
        map.insert(key.replace("q_proj", "v_proj"), value);
    }
    let configs = vec![("first".to_string(), config(2, 4.0, &["q_proj", "v_proj"]))];
    let mut count = 0;
    let mut indices = Vec::new();
    for module in ["q_proj", "k_proj", "v_proj"] {
        let path = PATH.replace("q_proj", module);
        let layer = linear(4, 4, store_at(map.clone(), &path), &configs, &mut count).unwrap();
        if let LoraLayer::Adapted(adapted) = &*layer {
            indices.push((module, adapted.layer_index()));
        }
    }
    assert_eq!(count, 2);
    assert_eq!(indices, vec![("q_proj", 0), ("v_proj", 1)]);
}

#[test]
fn linear_no_bias_builds_layers_without_bias() {
    let configs = vec![("first".to_string(), config(2, 4.0, &["q_proj"]))];
    let mut count = 0;
    let layer = linear_no_bias(4, 4, store(), &configs, &mut count).unwrap();
    assert_eq!(count, 1);
    assert!(layer.bias().is_none());
    let ones = Tensor::ones((1, 1, 1), DType::F32, &Device::Cpu).unwrap();
    assert_eq!(flat(&layer.lora_forward(&unit_input(), ones).unwrap()), vec![3., 5., 9., 13.]);
    let frozen = vec![("first".to_string(), config(2, 4.0, &["v_proj"]))];
    let layer = linear_no_bias(4, 4, store(), &frozen, &mut count).unwrap();
    assert_eq!(count, 1);
    assert!(layer.bias().is_none());
    let ones = Tensor::ones((1, 1, 1), DType::F32, &Device::Cpu).unwrap();
    assert_eq!(flat(&layer.lora_forward(&unit_input(), ones).unwrap()), vec![1., 5., 9., 13.]);
}

#[test]
fn linear_passes_on_what_the_store_refuses() {
    let configs = vec![("first".to_string(), config(2, 4.0, &["q_proj"]))];
    let mut count = 0;
    // no such tensors
    let empty = store_at(HashMap::new(), PATH);
    assert!(matches!(linear(4, 4, empty, &configs, &mut count), Err(LoraError::Engine(_))));
    // other sizes than the store holds
    assert!(matches!(linear(4, 8, store(), &configs, &mut count), Err(LoraError::Engine(_))));
    // an adapter whose factors are missing
    let unknown = vec![("third".to_string(), config(2, 4.0, &["q_proj"]))];
    assert!(matches!(linear(4, 4, store(), &unknown, &mut count), Err(LoraError::Engine(_))));
    // a rank other than the stored factors have
    let other_rank = vec![("first".to_string(), config(3, 4.0, &["q_proj"]))];
    assert!(matches!(linear(4, 4, store(), &other_rank, &mut count), Err(LoraError::Engine(_))));
    assert_eq!(count, 0);
}

#[test]
fn linear_draws_what_a_growing_store_lacks() {
    let map = candle_nn::VarMap::new();
    let vb = VarBuilder::from_varmap(&map, DType::F32, &Device::Cpu).pp(PATH);
    let configs = vec![("fresh".to_string(), config(2, 4.0, &["q_proj"]))];
    let mut count = 0;
    let layer = linear(4, 6, VarStore { inner: vb }, &configs, &mut count).unwrap();
    assert_eq!(count, 1);
    assert_eq!(layer.shape(), vec![6, 4]);
    // the second factor starts at zero, so the fresh adapter contributes nothing
    let x = Tensor::randn(0f32, 1f32, (2, 3, 4), &Device::Cpu).unwrap();
    let ones = Tensor::ones((2, 3, 1), DType::F32, &Device::Cpu).unwrap();
    let out = layer.lora_forward(&x, ones).unwrap();
    let base = candle_nn::Linear::new(layer.weight().clone(), layer.bias().cloned());
    let plain = candle_nn::Module::forward(&base, &x).unwrap();
    assert_eq!(flat(&out), flat(&plain));
    let data = map.data().lock().unwrap();
    assert!(data.contains_key(&format!("{PATH}.lora_A.fresh.weight")));
    assert!(data.contains_key(&format!("{PATH}.lora_B.fresh.weight")));
}

#[test]
fn load_base_asks_the_store_for_the_layer_at_its_path() {
    let with = load_base(&store(), 4, 4, true).unwrap();
    assert_eq!(with.shape(), vec![4, 4]);
    assert_eq!(flat(with.bias().unwrap()), vec![0.5, 0.5, 0.5, 0.5]);
    assert_eq!(flat(with.weight())[..4], [1., 2., 3., 4.]);
    let without = load_base(&store(), 4, 4, false).unwrap();
    assert!(without.bias().is_none());
    assert_eq!(flat(without.weight()), flat(with.weight()));
    assert!(matches!(load_base(&store(), 4, 5, true), Err(LoraError::Engine(_))));
    assert!(matches!(load_base(&store_at(HashMap::new(), PATH), 4, 4, false), Err(LoraError::Engine(_))));
}

#[test]
fn load_base_without_bias_does_not_ask_for_one() {
    let mut map = tensors();
    map.remove(&format!("{PATH}.bias"));
    let layer = load_base(&store_at(map.clone(), PATH), 4, 4, false).unwrap();
    assert!(layer.bias().is_none());
    assert_eq!(layer.shape(), vec![4, 4]);
    assert!(matches!(load_base(&store_at(map, PATH), 4, 4, true), Err(LoraError::Engine(_))));
}

#[test]
fn load_adapter_takes_each_factor_from_its_own_group() {
    let adapter = load_adapter(&store(), 4, 4, "first", &config(2, 4.0, &["q_proj"])).unwrap();
    assert_eq!(adapter.rank(), 2);
    assert_eq!(f64::from_bits(adapter.alpha_bits()), 4.0);
    assert_eq!(adapter.scale().to_scalar::<f32>().unwrap(), 2.0);
    // factors of different shapes: had the groups been taken for each other,
    // the store would have refused the shapes asked for
    let second = load_adapter(&store(), 4, 4, "second", &config(1, 3.0, &["q_proj"])).unwrap();
    assert_eq!(second.rank(), 1);
    assert_eq!(second.scale().to_scalar::<f32>().unwrap(), 3.0);
    let sum = Tensor::zeros((1, 1, 4), DType::F32, &Device::Cpu).unwrap();
    let x = Tensor::new(&[[[0f32, 0., 0., 5.]]], &Device::Cpu).unwrap();
    let ones = Tensor::ones((1, 1, 1), DType::F32, &Device::Cpu).unwrap();
    assert_eq!(flat(&second.add_to(sum, &x, &ones).unwrap()), vec![0., 0., 45., 0.]);
}

#[test]
fn load_adapter_passes_on_what_the_store_refuses() {
    assert!(matches!(
        load_adapter(&store(), 4, 4, "third", &config(2, 4.0, &["q_proj"])),
        Err(LoraError::Engine(_))
    ));
    assert!(matches!(
        load_adapter(&store(), 4, 4, "first", &config(3, 4.0, &["q_proj"])),
        Err(LoraError::Engine(_))
    ));
    assert!(matches!(
        load_adapter(&store(), 5, 4, "first", &config(2, 4.0, &["q_proj"])),
        Err(LoraError::Engine(_))
    ));
}

#[test]
fn linear_hands_each_adapter_its_own_alpha() {
    let configs = vec![
        ("first".to_string(), config(2, 4.0, &["q_proj"])),
        ("second".to_string(), config(1, 0.5, &["q_proj"])),
    ];
    let mut count = 0;
    let layer = linear(4, 4, store(), &configs, &mut count).unwrap();
    let x = Tensor::new(&[[[1f32, 0., 0., 1.]]], &Device::Cpu).unwrap();
    // only the second adapter: 0.5 * [0, 0, 3, 0]
    let second_only = Tensor::new(&[[[0f32, 1.]]], &Device::Cpu).unwrap();
    assert_eq!(flat(&layer.lora_forward(&x, second_only).unwrap()), vec![5.5, 13.5, 23.0, 29.5]);
    // only the first: 2 * [1, 0, 0, 0]
    let first_only = Tensor::new(&[[[1f32, 0.]]], &Device::Cpu).unwrap();
    assert_eq!(flat(&layer.lora_forward(&x, first_only).unwrap()), vec![7.5, 13.5, 21.5, 29.5]);
}

#[test]
fn module_of_is_the_last_segment_of_the_store_s_path() {
    assert_eq!(module_of(&store()), "q_proj");
    assert_eq!(module_of(&store_at(HashMap::new(), "a.b.c")), "c");
    assert_eq!(module_of(&store_at(HashMap::new(), "")), "");
}

#[test]
fn sized_adapter_takes_factors_of_the_sizes_asked_for() {
    let a = Tensor::zeros((2, 5), DType::F32, &Device::Cpu).unwrap();
    let b = Tensor::zeros((3, 2), DType::F32, &Device::Cpu).unwrap();
    let adapter = sized_adapter(5, 3, 2, a.clone(), b.clone(), 8f64.to_bits(), Some(0.5f32.to_bits())).unwrap();
    assert_eq!(adapter.rank(), 2);
    assert_eq!(adapter.in_features(), 5);
    assert_eq!(adapter.out_features(), 3);
    assert_eq!(f64::from_bits(adapter.alpha_bits()), 8.0);
    assert_eq!(adapter.dropout_bits().map(f32::from_bits), Some(0.5));
    assert_eq!(adapter.scale().to_scalar::<f32>().unwrap(), 4.0);
}

#[test]
fn sized_adapter_refuses_every_other_size() {
    let a = Tensor::zeros((2, 5), DType::F32, &Device::Cpu).unwrap();
    let b = Tensor::zeros((3, 2), DType::F32, &Device::Cpu).unwrap();
    let bits = 1f64.to_bits();
    assert!(matches!(sized_adapter(4, 3, 2, a.clone(), b.clone(), bits, None), Err(LoraError::ShapeMismatch)));
    assert!(matches!(sized_adapter(5, 4, 2, a.clone(), b.clone(), bits, None), Err(LoraError::ShapeMismatch)));
    assert!(matches!(sized_adapter(5, 3, 3, a.clone(), b.clone(), bits, None), Err(LoraError::ShapeMismatch)));
    // factors that fit each other but not the rank asked for
    let a3 = Tensor::zeros((3, 5), DType::F32, &Device::Cpu).unwrap();
    let b3 = Tensor::zeros((3, 3), DType::F32, &Device::Cpu).unwrap();
    assert!(matches!(sized_adapter(5, 3, 2, a3, b3, bits, None), Err(LoraError::ShapeMismatch)));
    // the two taken for each other
    assert!(matches!(sized_adapter(5, 3, 2, b.clone(), a.clone(), bits, None), Err(LoraError::ShapeMismatch)));
    let flat = Tensor::zeros(10, DType::F32, &Device::Cpu).unwrap();
    assert!(matches!(sized_adapter(5, 3, 2, flat, b, bits, None), Err(LoraError::ShapeMismatch)));
}

#[test]
fn linear_keeps_each_adapter_s_dropout_probability() {
    let with = LoraConfig::new(2, 4f64.to_bits(), Some(0.25f32.to_bits()), names(&["q_proj"]));
    let without = LoraConfig::new(1, 2f64.to_bits(), None, names(&["q_proj"]));
    let configs = vec![("first".to_string(), with), ("second".to_string(), without)];
    let mut count = 0;
    let layer = linear(4, 4, store(), &configs, &mut count).unwrap();
    match &*layer {
        LoraLayer::Adapted(adapted) => {
            assert_eq!(adapted.takes_dropout(0).map(f32::from_bits), Some(0.25));
            assert_eq!(adapted.takes_dropout(1), None);
            assert_eq!(adapted.takes_dropout(2), None);
        }
        LoraLayer::Frozen(_) => panic!("the module is targeted"),
    }
}

#[test]
fn linear_shows_the_store_s_weight_and_bias_through_the_handle() {
    let map = tensors();
    let weight = map[&format!("{PATH}.weight")].clone();
    let bias = map[&format!("{PATH}.bias")].clone();
    for targets in [&["q_proj"][..], &["k_proj"][..]] {
        let configs = vec![("first".to_string(), config(2, 4.0, targets))];
        let mut count = 0;
        let layer = linear(4, 4, store_at(map.clone(), PATH), &configs, &mut count).unwrap();
        assert_eq!(layer.shape(), vec![4, 4]);
        assert_eq!(flat(layer.weight()), flat(&weight));
        assert_eq!(flat(layer.bias().unwrap()), flat(&bias));
    }
}

#[test]
fn a_full_counter_stops_only_a_module_that_gets_adapters() {
    let frozen = vec![("first".to_string(), config(2, 4.0, &["k_proj"]))];
    let mut count = usize::MAX;
    assert!(linear(4, 4, store(), &frozen, &mut count).is_ok());
    assert_eq!(count, usize::MAX);
    let differing = vec![
        ("first".to_string(), config(2, 4.0, &["q_proj"])),
        ("second".to_string(), config(2, 4.0, &["k_proj"])),
    ];
    assert!(matches!(linear(4, 4, store(), &differing, &mut count), Err(LoraError::ConfigMismatch)));
    assert_eq!(count, usize::MAX);
}
