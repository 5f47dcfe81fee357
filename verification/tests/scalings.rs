use candle_core::{Device, Tensor};
use lora_layers::error::LoraError;
use lora_layers::scalings::{apply_scalings_to_x, get_maybe_topk_scalings, select, select_scaling};

/// A `[2, 3, 4]` tensor whose element at `(b, s, a)` is `100 b + 10 s + a`.
fn three_axes() -> Tensor {
    let mut data: Vec<f32> = Vec::new();
    for b in 0..2 {
        for s in 0..3 {
            for a in 0..4 {
                data.push((100 * b + 10 * s + a) as f32);
            }
        }
    }
    Tensor::from_vec(data, (2, 3, 4), &Device::Cpu).unwrap()
}

/// A `[2, 3, 5, 4]` tensor whose element at `(b, s, l, a)` is
/// `1000 b + 100 s + 10 l + a`.
fn four_axes() -> Tensor {
    let mut data: Vec<f32> = Vec::new();
    for b in 0..2 {
        for s in 0..3 {
            for l in 0..5 {
                for a in 0..4 {
                    data.push((1000 * b + 100 * s + 10 * l + a) as f32);
                }
            }
        }
    }
    Tensor::from_vec(data, (2, 3, 5, 4), &Device::Cpu).unwrap()
}

#[test]
fn select_scaling_takes_one_column_and_adds_an_axis() {
    let selected = select_scaling(&three_axes(), 2).unwrap();
    assert_eq!(selected.dims(), &[2, 3, 1]);
    assert_eq!(
        selected.to_vec3::<f32>().unwrap(),
        vec![
            vec![vec![2.0], vec![12.0], vec![22.0]],
            vec![vec![102.0], vec![112.0], vec![122.0]],
        ]
    );
}

#[test]
fn select_scaling_reaches_the_first_and_the_last_adapter() {
    let first = select_scaling(&three_axes(), 0).unwrap();
    assert_eq!(first.flatten_all().unwrap().to_vec1::<f32>().unwrap(), vec![0.0, 10.0, 20.0, 100.0, 110.0, 120.0]);
    let last = select_scaling(&three_axes(), 3).unwrap();
    assert_eq!(last.flatten_all().unwrap().to_vec1::<f32>().unwrap(), vec![3.0, 13.0, 23.0, 103.0, 113.0, 123.0]);
}

#[test]
fn select_scaling_out_of_range_is_an_index_error() {
    assert!(matches!(select_scaling(&three_axes(), 4), Err(LoraError::IndexOutOfRange)));
    assert!(matches!(select_scaling(&three_axes(), usize::MAX), Err(LoraError::IndexOutOfRange)));
}

#[test]
fn select_scaling_of_another_rank_is_a_shape_error() {
    let two = Tensor::zeros((2, 3), candle_core::DType::F32, &Device::Cpu).unwrap();
    assert!(matches!(select_scaling(&two, 0), Err(LoraError::ShapeMismatch)));
    assert!(matches!(select_scaling(&four_axes(), 0), Err(LoraError::ShapeMismatch)));
}

#[test]
fn select_scaling_on_an_empty_adapter_axis_is_an_index_error() {
    let none = Tensor::zeros((2, 3, 0), candle_core::DType::F32, &Device::Cpu).unwrap();
    assert!(matches!(select_scaling(&none, 0), Err(LoraError::IndexOutOfRange)));
}

#[test]
fn select_scaling_twice_gives_the_same_bits() {
    let scalings = three_axes();
    let one = select_scaling(&scalings, 1).unwrap().to_vec3::<f32>().unwrap();
    let two = select_scaling(&scalings, 1).unwrap().to_vec3::<f32>().unwrap();
    let bits = |v: &Vec<Vec<Vec<f32>>>| -> Vec<u32> { v.iter().flatten().flatten().map(|x| x.to_bits()).collect() };
    assert_eq!(bits(&one), bits(&two));
}

#[test]
fn select_scaling_does_not_read_other_adapters() {
    let whole = three_axes();
    // the same tensor with every column but the second overwritten
    let mut data = whole.flatten_all().unwrap().to_vec1::<f32>().unwrap();
    for (i, x) in data.iter_mut().enumerate() {
        if i % 4 != 1 {
            *x = f32::NAN;
        }
    }
    let changed = Tensor::from_vec(data, (2, 3, 4), &Device::Cpu).unwrap();
    assert_eq!(
        select_scaling(&whole, 1).unwrap().to_vec3::<f32>().unwrap(),
        select_scaling(&changed, 1).unwrap().to_vec3::<f32>().unwrap()
    );
}

#[test]
fn topk_scalings_of_three_axes_are_returned_as_they_are() {
    let own = get_maybe_topk_scalings(three_axes(), 7).unwrap();
    assert_eq!(own.dims(), &[2, 3, 4]);
    assert_eq!(own.to_vec3::<f32>().unwrap(), three_axes().to_vec3::<f32>().unwrap());
}

#[test]
fn topk_scalings_of_four_axes_are_sliced_at_the_layer() {
    let own = get_maybe_topk_scalings(four_axes(), 3).unwrap();
    assert_eq!(own.dims(), &[2, 3, 4]);
    let got = own.to_vec3::<f32>().unwrap();
    for b in 0..2 {
        for s in 0..3 {
            for a in 0..4 {
                assert_eq!(got[b][s][a], (1000 * b + 100 * s + 30 + a) as f32);
            }
        }
    }
}

#[test]
fn topk_scalings_layer_out_of_range_is_an_index_error() {
    assert!(matches!(get_maybe_topk_scalings(four_axes(), 5), Err(LoraError::IndexOutOfRange)));
    assert!(get_maybe_topk_scalings(four_axes(), 4).is_ok());
}

#[test]
fn topk_scalings_of_another_rank_are_a_shape_error() {
    let two = Tensor::zeros((2, 3), candle_core::DType::F32, &Device::Cpu).unwrap();
    assert!(matches!(get_maybe_topk_scalings(two, 0), Err(LoraError::ShapeMismatch)));
    let five = Tensor::zeros((1, 1, 1, 1, 1), candle_core::DType::F32, &Device::Cpu).unwrap();
    assert!(matches!(get_maybe_topk_scalings(five, 0), Err(LoraError::ShapeMismatch)));
}

#[test]
fn select_without_layer_is_the_three_axis_form() {
    let selected = select(&three_axes(), 3, None).unwrap();
    assert_eq!(selected.dims(), &[2, 3, 1]);
    assert_eq!(selected.flatten_all().unwrap().to_vec1::<f32>().unwrap(), vec![3.0, 13.0, 23.0, 103.0, 113.0, 123.0]);
    assert!(matches!(select(&four_axes(), 0, None), Err(LoraError::ShapeMismatch)));
    assert!(matches!(select(&three_axes(), 4, None), Err(LoraError::IndexOutOfRange)));
}

#[test]
fn select_with_layer_is_the_four_axis_form() {
    let selected = select(&four_axes(), 2, Some(4)).unwrap();
    assert_eq!(selected.dims(), &[2, 3, 1]);
    assert_eq!(
        selected.flatten_all().unwrap().to_vec1::<f32>().unwrap(),
        vec![42.0, 142.0, 242.0, 1042.0, 1142.0, 1242.0]
    );
}

#[test]
fn select_with_layer_reports_each_index_and_the_rank() {
    assert!(matches!(select(&four_axes(), 0, Some(5)), Err(LoraError::IndexOutOfRange)));
    assert!(matches!(select(&four_axes(), 4, Some(0)), Err(LoraError::IndexOutOfRange)));
    assert!(matches!(select(&three_axes(), 0, Some(0)), Err(LoraError::ShapeMismatch)));
}

#[test]
fn apply_scalings_multiplies_every_feature_by_the_position_s_scaling() {
    // x[b][s][f] = f + 1, scalings of adapter 1 at (b, s) = 100 b + 10 s + 1
    let x = Tensor::from_vec(
        (0..2 * 3 * 5).map(|i| (i % 5 + 1) as f32).collect::<Vec<f32>>(),
        (2, 3, 5),
        &Device::Cpu,
    )
    .unwrap();
    let scaled = apply_scalings_to_x(x, &three_axes(), 1).unwrap();
    assert_eq!(scaled.dims(), &[2, 3, 5]);
    let got = scaled.to_vec3::<f32>().unwrap();
    for b in 0..2 {
        for s in 0..3 {
            for f in 0..5 {
                assert_eq!(got[b][s][f], ((f + 1) * (100 * b + 10 * s + 1)) as f32);
            }
        }
    }
}

#[test]
fn apply_scalings_reports_index_and_shape() {
    let x = Tensor::zeros((2, 3, 5), candle_core::DType::F32, &Device::Cpu).unwrap();
    assert!(matches!(apply_scalings_to_x(x.clone(), &three_axes(), 4), Err(LoraError::IndexOutOfRange)));
    assert!(matches!(apply_scalings_to_x(x.clone(), &four_axes(), 0), Err(LoraError::ShapeMismatch)));
    let other = Tensor::zeros((4, 3, 5), candle_core::DType::F32, &Device::Cpu).unwrap();
    assert!(matches!(apply_scalings_to_x(other, &three_axes(), 0), Err(LoraError::ShapeMismatch)));
}

#[test]
fn apply_scalings_passes_on_what_the_engine_refuses() {
    let x = Tensor::zeros((2, 3, 5), candle_core::DType::F64, &Device::Cpu).unwrap();
    assert!(matches!(apply_scalings_to_x(x, &three_axes(), 0), Err(LoraError::Engine(_))));
}

#[test]
fn apply_scalings_refuses_integers_before_the_engine_multiplies() {
    // 200 * 2 does not fit a byte: the engine is never asked
    let x = Tensor::from_vec(vec![200u8; 6], (1, 2, 3), &Device::Cpu).unwrap();
    let scalings = Tensor::from_vec(vec![2u8; 8], (1, 2, 4), &Device::Cpu).unwrap();
    assert!(matches!(apply_scalings_to_x(x, &scalings, 0), Err(LoraError::ElementType)));
    let wide = Tensor::from_vec(vec![i64::MAX; 6], (1, 2, 3), &Device::Cpu).unwrap();
    let floats = Tensor::ones((1, 2, 4), candle_core::DType::F32, &Device::Cpu).unwrap();
    assert!(matches!(apply_scalings_to_x(wide, &floats, 0), Err(LoraError::ElementType)));
}

#[test]
fn apply_scalings_reports_shape_and_index_before_the_element_type() {
    let x = Tensor::from_vec(vec![1u32; 6], (1, 2, 3), &Device::Cpu).unwrap();
    let scalings = Tensor::ones((1, 2, 4), candle_core::DType::F32, &Device::Cpu).unwrap();
    assert!(matches!(apply_scalings_to_x(x.clone(), &scalings, 4), Err(LoraError::IndexOutOfRange)));
    let other = Tensor::ones((1, 3, 4), candle_core::DType::F32, &Device::Cpu).unwrap();
    assert!(matches!(apply_scalings_to_x(x, &other, 0), Err(LoraError::ShapeMismatch)));
}

#[test]
fn apply_scalings_succeeds_on_floats_of_one_type() {
    for dtype in [
        candle_core::DType::BF16,
        candle_core::DType::F16,
        candle_core::DType::F32,
        candle_core::DType::F64,
    ] {
        let x = Tensor::ones((2, 3, 5), dtype, &Device::Cpu).unwrap();
        let scalings = three_axes().to_dtype(dtype).unwrap();
        let scaled = apply_scalings_to_x(x, &scalings, 2).unwrap();
        assert_eq!(scaled.dims(), &[2, 3, 5]);
        assert_eq!(scaled.dtype(), dtype);
        let got = scaled.to_dtype(candle_core::DType::F32).unwrap().to_vec3::<f32>().unwrap();
        assert_eq!(got[1][2][4], 122.0);
    }
}

#[test]
fn apply_scalings_through_a_layer_slice_takes_that_layer_s_column() {
    let x = Tensor::ones((2, 3, 2), candle_core::DType::F32, &Device::Cpu).unwrap();
    let own = get_maybe_topk_scalings(four_axes(), 3).unwrap();
    let scaled = apply_scalings_to_x(x, &own, 1).unwrap().to_vec3::<f32>().unwrap();
    for b in 0..2 {
        for s in 0..3 {
            for f in 0..2 {
                assert_eq!(scaled[b][s][f], (1000 * b + 100 * s + 30 + 1) as f32);
            }
        }
    }
}
