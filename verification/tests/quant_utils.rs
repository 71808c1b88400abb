use erissery_core::quant::utils::{f32_bytes_to_f32, pad_to_block_size};

fn bits(values: &[f32]) -> Vec<u32> {
    values.iter().map(|v| v.to_bits()).collect()
}

#[test]
fn utils_test_f32_bytes_to_f32() {
    let f32_bytes: [u8; 12] = [
        0x00, 0x00, 0x00, 0x00, 0x00, 0x00, 0x80, 0x3F, 0x00, 0x00, 0x00, 0x3F,
    ];
    let f32_converted = f32_bytes_to_f32(&f32_bytes);

    assert_eq!(f32_converted, bits(&[0f32, 1f32, 0.5f32]))
}

#[test]
fn utils_pad_to_exact_block_size() {
    let data = bits(&[12.93f32; 8]);
    let block_size = 10;
    let padded_data = pad_to_block_size(&data, block_size);

    assert_eq!(padded_data.len(), block_size);
    assert_eq!(padded_data[8..], bits(&[0.0f32; 2]));
}

#[test]
fn utils_pad_to_block_size_multiple() {
    let data = bits(&[12.93f32; 12]);
    let block_size = 10;
    let padded_data = pad_to_block_size(&data, block_size);

    assert_eq!(padded_data.len() % block_size, 0);
    assert_eq!(padded_data[12..], bits(&[0.0f32; 8]));
}

#[test]
fn utils_pad_to_block_size_empty_data() {
    let data: Vec<u32> = vec![];
    let block_size = 10;
    let padded_data = pad_to_block_size(&data, block_size);

    assert_eq!(padded_data.len(), 0);
}

#[test]
fn quantization_test_f32_bytes_to_f32() {
    let f32_bytes: [u8; 12] = [
        0x00, 0x00, 0x00, 0x00, 0x00, 0x00, 0x80, 0x3F, 0x00, 0x00, 0x00, 0x3F,
    ];
    let f32_converted = f32_bytes_to_f32(&f32_bytes);

    assert_eq!(f32_converted, bits(&[0f32, 1f32, 0.5f32]))
}

#[test]
fn quantization_pad_to_exact_block_size() {
    let data = bits(&[12.93f32; 8]);
    let block_size = 10;
    let padded_data = pad_to_block_size(&data, block_size);

    assert_eq!(padded_data.len(), block_size);
    assert_eq!(padded_data[8..], bits(&[0.0f32; 2]));
}

#[test]
fn quantization_pad_to_block_size_multiple() {
    let data = bits(&[12.93f32; 12]);
    let block_size = 10;
    let padded_data = pad_to_block_size(&data, block_size);

    assert_eq!(padded_data.len() % block_size, 0);
    assert_eq!(padded_data[12..], bits(&[0.0f32; 8]));
}

#[test]
fn quantization_pad_to_block_size_empty_data() {
    let data: Vec<u32> = vec![];
    let block_size = 10;
    let padded_data = pad_to_block_size(&data, block_size);

    assert_eq!(padded_data.len(), 0);
}

#[test]
fn pad_keeps_data_and_adds_fewer_than_a_block() {
    let data: Vec<u32> = (1..=33).collect();
    let padded = pad_to_block_size(&data, 32);
    assert_eq!(padded.len(), 64);
    assert_eq!(&padded[..33], &data[..]);
    assert!(padded[33..].iter().all(|&b| b == 0));
}

#[test]
fn f32_bytes_ignores_trailing_partial_value() {
    let bytes = [0x00, 0x00, 0x80, 0x3F, 0xAA, 0xBB];
    assert_eq!(f32_bytes_to_f32(&bytes), vec![1.0f32.to_bits()]);
}

#[test]
fn f32_bytes_keep_nan_payload() {
    let raw = 0x7FC0_1234u32;
    assert_eq!(f32_bytes_to_f32(&raw.to_le_bytes()), vec![raw]);
}
