use erissery_core::error::Error;
use erissery_core::ggml::{GGMLType, QuantizedTensor};
use erissery_core::quant::utils::{f32_bytes_to_f32, pad_to_block_size};
use erissery_core::quantization::{
    keep_f32_tensor, pack_q8_0_blocks, pass_through_tensor, plan_safetensors_q4k,
    plan_safetensors_q4k_bytes, plan_safetensors_q8_0, plan_safetensors_q8_0_bytes, q8_0_tensor,
    quantized_tensor,
    should_quantize, TensorAction, GGUF_KEEP_F32_EXACT, GGUF_KEEP_F32_SUFFIXES, Q8_0_BLOCK_SIZE,
};
use erissery_core::{inspect_tensor_bytes, DType};
use safetensors::tensor::TensorView;
use safetensors::{Dtype, SafeTensors};
use std::collections::HashMap;

/// Scale and quantized values of each block, as the command-line tool computes them.
fn q8_0_scales_and_values(elements: &[f32], block_size: usize) -> (Vec<u16>, Vec<i8>) {
    let mut scales: Vec<u16> = Vec::new();
    let mut quants: Vec<i8> = Vec::new();
    for block in elements.chunks(block_size) {
        let amax = block.iter().map(|x| x.abs()).fold(0.0f32, f32::max);
        let scale = if amax == 0.0 { 0.0f32 } else { amax / 127.0f32 };
        scales.push(half::f16::from_f32(scale).to_bits());
        let inv_scale = if scale == 0.0 { 0.0f32 } else { 1.0f32 / scale };
        for &val in block {
            quants.push((val * inv_scale).round().clamp(-127.0, 127.0) as i8);
        }
    }
    (scales, quants)
}

/// The packed Q8_0 blocks of `elements`.
fn q8_0_kernel(elements: &[f32], block_size: usize) -> Vec<u8> {
    let (scales, quants) = q8_0_scales_and_values(elements, block_size);
    pack_q8_0_blocks(&scales, &quants, block_size)
}

/// Quantizes the F32 tensors of a file held in `bytes` the way the
/// command-line tool does: the library plans and builds each tensor, and
/// only the block scales and rounded values are computed here.
fn quantize_safetensors_q8_0(bytes: &[u8]) -> Result<Vec<QuantizedTensor>, Error> {
    let plans = plan_safetensors_q8_0_bytes(bytes)?;
    let mut out = Vec::new();
    for plan in plans {
        match plan.action {
            TensorAction::PassThrough(_) => out.push(pass_through_tensor(plan)),
            TensorAction::KeepF32 => out.push(keep_f32_tensor(plan)),
            TensorAction::QuantizeQ8_0 => {
                let bits = f32_bytes_to_f32(plan.data);
                let padded = pad_to_block_size(&bits, Q8_0_BLOCK_SIZE);
                let values: Vec<f32> = padded.iter().map(|&b| f32::from_bits(b)).collect();
                let (scales, quants) = q8_0_scales_and_values(&values, Q8_0_BLOCK_SIZE);
                out.push(q8_0_tensor(plan, &scales, &quants));
            }
            _ => {}
        }
    }
    Ok(out)
}

fn make_f32_safetensors(name: &str, shape: &[usize]) -> (Vec<f32>, Vec<u8>) {
    let num_elements: usize = shape.iter().product();

    // Synthetic Data
    let data: Vec<f32> = (0..num_elements)
        .map(|i| (i as f32 / num_elements as f32) * 2.0 - 1.0)
        .collect();

    let raw: Vec<u8> = data.iter().flat_map(|x| x.to_le_bytes()).collect();

    let mut tensors: HashMap<String, TensorView> = HashMap::new();
    tensors.insert(
        name.to_string(),
        TensorView::new(Dtype::F32, shape.to_vec(), &raw).unwrap(),
    );

    let bytes = safetensors::serialize(&tensors, None).unwrap();

    (data, bytes)
}

fn make_safetensors(entries: &[(&str, Dtype, Vec<usize>, Vec<u8>)]) -> Vec<u8> {
    let mut tensors: HashMap<String, TensorView> = HashMap::new();
    for (name, dtype, shape, raw) in entries {
        tensors.insert(
            name.to_string(),
            TensorView::new(*dtype, shape.clone(), raw).unwrap(),
        );
    }
    safetensors::serialize(&tensors, None).unwrap()
}

#[test]
fn should_not_quantize_1d_tensor() {
    let tensor_shape: [usize; 1] = [4096];

    assert!(!should_quantize("test_tensor", &tensor_shape))
}

#[test]
fn should_not_quantize_norms() {
    let tensor_shape: [usize; 3] = [7; 3];
    for suffix in GGUF_KEEP_F32_SUFFIXES {
        assert!(!should_quantize(
            format!("test_tensor{}", suffix).as_str(),
            &tensor_shape
        ))
    }
}

#[test]
fn should_not_quantize_essentials() {
    let tensor_shape: [usize; 3] = [7; 3];
    for suffix in GGUF_KEEP_F32_EXACT {
        assert!(!should_quantize(suffix, &tensor_shape))
    }
}

#[test]
fn should_quantize_2d_weights() {
    assert!(should_quantize("blk.0.attn_q.weight", &[896, 896]));
    assert!(should_quantize("output.weight", &[10, 4]));
    assert!(!should_quantize("blk.0.attn_norm.weight", &[896, 896]));
}

#[test]
fn should_not_quantize_dim() {
    let name = "model.layers.0.self_attn.q_proj.weight";
    let shape = vec![2usize];
    let (data, tensor_bytes) = make_f32_safetensors(name, &shape);

    let quantized_tensors = quantize_safetensors_q8_0(&tensor_bytes).unwrap();

    assert_eq!(quantized_tensors.len(), 1);
    let qtensor = quantized_tensors.first().unwrap();
    assert_eq!(qtensor.shape, shape);
    assert_eq!(qtensor.name, name);
    assert_eq!(qtensor.data.len(), data.len() * 4);
    assert_eq!(qtensor.ggml_type, GGMLType::F32);
}

#[test]
fn should_not_quantize_name() {
    let name = "model.norm.weight";
    let shape = vec![2usize, 3usize];
    let (data, tensor_bytes) = make_f32_safetensors(name, &shape);

    let quantized_tensors = quantize_safetensors_q8_0(&tensor_bytes).unwrap();

    assert_eq!(quantized_tensors.len(), 1);
    let qtensor = quantized_tensors.first().unwrap();
    assert_eq!(qtensor.shape, shape);
    assert_eq!(qtensor.name, name);
    assert_eq!(qtensor.data.len(), data.len() * 4);
    assert_eq!(qtensor.ggml_type, GGMLType::F32);
}

#[test]
fn quantize_tensor_block_no_padding() {
    let name = "model.layers.0.self_attn.q_proj.weight";
    let shape = vec![2usize, 16usize];
    let (data, tensor_bytes) = make_f32_safetensors(name, &shape);

    let quantized_tensors = quantize_safetensors_q8_0(&tensor_bytes).unwrap();

    assert_eq!(quantized_tensors.len(), 1);
    let qtensor = quantized_tensors.first().unwrap();
    assert_eq!(qtensor.shape, shape);
    assert_eq!(qtensor.name, name);
    assert_eq!(qtensor.data.len(), data.len() + 2);
    assert_eq!(qtensor.ggml_type, GGMLType::Q8_0);
}

#[test]
fn quantize_tensor_block_padding() {
    let name = "model.layers.0.self_attn.q_proj.weight";
    let shape = vec![3usize, 16usize];
    let (_, tensor_bytes) = make_f32_safetensors(name, &shape);

    let quantized_tensors = quantize_safetensors_q8_0(&tensor_bytes).unwrap();

    assert_eq!(quantized_tensors.len(), 1);
    let qtensor = quantized_tensors.first().unwrap();
    assert_eq!(qtensor.shape, shape);
    assert_eq!(qtensor.name, name);
    assert_eq!(qtensor.data.len(), 68);
    assert_eq!(qtensor.ggml_type, GGMLType::Q8_0);
}

#[test]
fn kept_f32_tensor_holds_the_file_bytes() {
    let name = "model.norm.weight";
    let (data, tensor_bytes) = make_f32_safetensors(name, &[2, 3]);
    let quantized = quantize_safetensors_q8_0(&tensor_bytes).unwrap();
    let expected: Vec<u8> = data.iter().flat_map(|x| x.to_le_bytes()).collect();
    assert_eq!(quantized[0].data, expected);
    assert_eq!(quantized[0].num_elements, 6);
    assert_eq!(quantized[0].gguf_name, "output_norm.weight");
}

#[test]
fn embeddings_are_kept_in_f32() {
    let (_, tensor_bytes) = make_f32_safetensors("model.embed_tokens.weight", &[4, 8]);
    let tensor = SafeTensors::deserialize(&tensor_bytes).unwrap();
    let plans = plan_safetensors_q8_0(&tensor).unwrap();
    assert_eq!(plans.len(), 1);
    assert_eq!(plans[0].gguf_name, "token_embd.weight");
    assert_eq!(plans[0].action, TensorAction::KeepF32);
}

#[test]
fn plan_maps_names_and_counts_elements() {
    let (_, tensor_bytes) = make_f32_safetensors("model.layers.3.mlp.up_proj.weight", &[4, 8]);
    let tensor = SafeTensors::deserialize(&tensor_bytes).unwrap();
    let plans = plan_safetensors_q8_0(&tensor).unwrap();
    assert_eq!(plans[0].gguf_name, "blk.3.ffn_up.weight");
    assert_eq!(plans[0].num_elements, 32);
    assert_eq!(plans[0].dtype, DType::F32);
    assert_eq!(plans[0].action, TensorAction::QuantizeQ8_0);
    assert_eq!(plans[0].data.len(), 128);
}

#[test]
fn plan_refuses_unmapped_name() {
    let (_, tensor_bytes) = make_f32_safetensors("model.layers.0.mystery.weight", &[4, 8]);
    let tensor = SafeTensors::deserialize(&tensor_bytes).unwrap();
    match plan_safetensors_q8_0(&tensor) {
        Err(Error::UnmappedTensorName(n)) => assert_eq!(n, "model.layers.0.mystery.weight"),
        _ => panic!("expected UnmappedTensorName"),
    }
}

#[test]
fn plan_passes_integer_tensors_through() {
    let raw = vec![1, 0, 0, 0, 2, 0, 0, 0];
    let bytes = make_safetensors(&[(
        "model.layers.0.self_attn.q_proj.bias",
        Dtype::I32,
        vec![2],
        raw.clone(),
    )]);
    let quantized = quantize_safetensors_q8_0(&bytes).unwrap();
    assert_eq!(quantized.len(), 1);
    assert_eq!(quantized[0].ggml_type, GGMLType::I32);
    assert_eq!(quantized[0].data, raw);
    assert_eq!(quantized[0].num_elements, 2);
    assert_eq!(quantized[0].gguf_name, "blk.0.attn_q.bias");
}

#[test]
fn plan_skips_other_dtypes() {
    let bytes = make_safetensors(&[(
        "model.layers.0.self_attn.q_proj.bias",
        Dtype::U8,
        vec![2],
        vec![1, 2],
    )]);
    let tensor = SafeTensors::deserialize(&bytes).unwrap();
    let plans = plan_safetensors_q8_0(&tensor).unwrap();
    assert_eq!(plans[0].action, TensorAction::Skip);
    assert!(quantized_tensor(plans.into_iter().next().unwrap(), Vec::new()).is_none());
}

#[test]
fn plan_q4k_passes_integers_through_and_refuses_bytes() {
    let bytes = make_safetensors(&[
        ("model.layers.0.self_attn.q_proj.bias", Dtype::I64, vec![1], vec![7, 0, 0, 0, 0, 0, 0, 0]),
        ("model.norm.weight", Dtype::F16, vec![2], vec![0, 0x3C, 0, 0x38]),
    ]);
    let tensor = SafeTensors::deserialize(&bytes).unwrap();
    let plans = plan_safetensors_q4k(&tensor).unwrap();
    assert_eq!(plans.len(), 2);
    for p in &plans {
        if p.name == "model.norm.weight" {
            assert_eq!(p.action, TensorAction::QuantizeQ4K);
        } else {
            assert_eq!(p.action, TensorAction::PassThrough(GGMLType::I64));
        }
    }
    let refused = make_safetensors(&[("model.norm.weight", Dtype::U8, vec![2], vec![1, 2])]);
    let tensor = SafeTensors::deserialize(&refused).unwrap();
    match plan_safetensors_q4k(&tensor) {
        Err(Error::UnsupportedDtype(DType::Other(n))) => assert_eq!(n, "U8"),
        _ => panic!("expected UnsupportedDtype"),
    }
}

#[test]
fn q8_0_blocks_pack_scale_then_values() {
    let packed = pack_q8_0_blocks(&[0x3C00, 0x1234], &[1, -1, 127, -127], 2);
    assert_eq!(packed, vec![0x00, 0x3C, 1, 0xFF, 0x34, 0x12, 127, 0x81]);
}

#[test]
fn q8_0_block_of_32_takes_34_bytes() {
    let values: Vec<f32> = (0..64).map(|i| i as f32 - 32.0).collect();
    let packed = q8_0_kernel(&values, 32);
    assert_eq!(packed.len(), 68);
    let scale = half::f16::from_bits(u16::from_le_bytes([packed[0], packed[1]])).to_f32();
    assert!((scale - 32.0 / 127.0).abs() < 1e-3);
    assert_eq!(packed[2] as i8, -127);
}

/// Values of the packed Q8_0 blocks, scaled back; padding values are dropped.
fn dequantize_q8_0(packed: &[u8], block_size: usize, num_elements: usize) -> Vec<f32> {
    let mut out: Vec<f32> = Vec::with_capacity(num_elements);
    for block in packed.chunks(block_size + 2) {
        let scale = half::f16::from_le_bytes([block[0], block[1]]).to_f32();
        for &byte in &block[2..] {
            out.push(byte as i8 as f32 * scale);
            if out.len() == num_elements {
                return out;
            }
        }
    }
    out
}

/// Values in `[0, 1)` from a fixed linear congruential sequence.
fn sample_values(n: usize) -> Vec<f32> {
    let mut state: u32 = 12345;
    (0..n)
        .map(|_| {
            state = state.wrapping_mul(1_103_515_245).wrapping_add(12345);
            (state >> 8) as f32 / (1u32 << 24) as f32
        })
        .collect()
}

#[test]
fn quantized_should_dequantize() {
    let block_size = 10;
    let elements = sample_values(block_size * 3);
    let result = q8_0_kernel(&elements, block_size);
    let dequantized_elements = dequantize_q8_0(&result, block_size, elements.len());

    assert_eq!(elements.len(), dequantized_elements.len());
}

#[test]
fn low_dequantization_precision() {
    let block_size = 10;
    let elements = sample_values(block_size * 3);
    let result = q8_0_kernel(&elements, block_size);
    let dequantized_elements = dequantize_q8_0(&result, block_size, elements.len());
    let sum: f32 = elements
        .iter()
        .zip(dequantized_elements.iter())
        .map(|(x, y)| (x - y).powi(2))
        .sum();
    let error = sum / elements.len() as f32;

    assert!(-1f32 < error && error < 1f32);
}

#[test]
fn kept_embeddings_hold_four_bytes_per_element() {
    let (data, tensor_bytes) = make_f32_safetensors("model.embed_tokens.weight", &[4, 8]);
    let quantized = quantize_safetensors_q8_0(&tensor_bytes).unwrap();
    assert_eq!(quantized.len(), 1);
    assert_eq!(quantized[0].gguf_name, "token_embd.weight");
    assert_eq!(quantized[0].ggml_type, GGMLType::F32);
    assert_eq!(quantized[0].num_elements, 32);
    assert_eq!(quantized[0].data.len(), 128);
    let expected: Vec<u8> = data.iter().flat_map(|x| x.to_le_bytes()).collect();
    assert_eq!(quantized[0].data, expected);
}

#[test]
fn quantized_tensor_is_the_packing_of_its_padded_blocks() {
    let (data, tensor_bytes) = make_f32_safetensors("model.layers.0.mlp.down_proj.weight", &[5, 9]);
    let quantized = quantize_safetensors_q8_0(&tensor_bytes).unwrap();
    let mut padded = data.clone();
    padded.resize(64, 0.0);
    assert_eq!(quantized[0].data, q8_0_kernel(&padded, 32));
    assert_eq!(quantized[0].data.len(), 2 * 34);
    assert_eq!(quantized[0].num_elements, 45);
}

#[test]
fn invalid_safetensors_bytes_are_refused() {
    assert!(matches!(
        plan_safetensors_q8_0_bytes(&[1, 2, 3]),
        Err(Error::InvalidSafetensors(_))
    ));
    assert!(matches!(
        plan_safetensors_q4k_bytes(&[0; 16]),
        Err(Error::InvalidSafetensors(_))
    ));
    assert!(matches!(inspect_tensor_bytes(&[]), Err(Error::InvalidSafetensors(_))));
    let (_, tensor_bytes) = make_f32_safetensors("model.norm.weight", &[2, 3]);
    let infos = inspect_tensor_bytes(&tensor_bytes).ok().unwrap();
    assert_eq!(infos.len(), 1);
    assert_eq!(infos[0].byte_size, 24);
}

#[test]
fn packing_concatenated_blocks_concatenates_packings() {
    let (s1, q1) = (vec![0x3C00u16], vec![1i8, -2]);
    let (s2, q2) = (vec![0x1234u16, 7], vec![3i8, 4, -5, 6]);
    let joined = pack_q8_0_blocks(&[s1.clone(), s2.clone()].concat(), &[q1.clone(), q2.clone()].concat(), 2);
    let apart = [pack_q8_0_blocks(&s1, &q1, 2), pack_q8_0_blocks(&s2, &q2, 2)].concat();
    assert_eq!(joined, apart);
}

#[test]
fn header_declaring_unaddressable_data_is_refused() {
    // Eight byte tensors of 2^61 - 1 bytes each: each passes validation, but
    // together they end within the header's length of the largest address.
    let size: u64 = (1u64 << 61) - 1;
    let entries: Vec<String> = (0..8u64)
        .map(|i| {
            format!(
                "\"t{}\":{{\"dtype\":\"U8\",\"shape\":[{}],\"data_offsets\":[{},{}]}}",
                i,
                size,
                i * size,
                (i + 1) * size
            )
        })
        .collect();
    let header = format!("{{{}}}", entries.join(","));
    let mut bytes = (header.len() as u64).to_le_bytes().to_vec();
    bytes.extend_from_slice(header.as_bytes());
    assert!(matches!(
        plan_safetensors_q8_0_bytes(&bytes),
        Err(Error::SafetensorsDataOverflow)
    ));
    assert!(matches!(inspect_tensor_bytes(&bytes), Err(Error::SafetensorsDataOverflow)));
}
