use erissery_core::ggml::{GGMLType, QuantizedTensor};
use erissery_core::gguf::kv::{architecture_kvs, tokenizer_kvs, GGUFValue};
use erissery_core::gguf::tensor_names::hf_to_ggf_name;
use erissery_core::gguf::writer::GGUFWriter;
use erissery_core::hf_config::HFConfig;
use erissery_core::tokenizer::TokenizerInfo;

fn tensor(name: &str, gguf: &str, shape: Vec<usize>, data: Vec<u8>, t: GGMLType) -> QuantizedTensor {
    let n = shape.iter().product();
    QuantizedTensor {
        name: name.to_string(),
        gguf_name: gguf.to_string(),
        shape,
        data,
        num_elements: n,
        ggml_type: t,
    }
}

fn u32_at(b: &[u8], i: usize) -> u32 {
    u32::from_le_bytes([b[i], b[i + 1], b[i + 2], b[i + 3]])
}

fn u64_at(b: &[u8], i: usize) -> u64 {
    let mut a = [0u8; 8];
    a.copy_from_slice(&b[i..i + 8]);
    u64::from_le_bytes(a)
}

#[test]
fn empty_file_has_only_the_aligned_header() {
    let w = GGUFWriter::new(Vec::new(), Vec::new());
    let bytes = w.to_bytes().unwrap();
    assert_eq!(bytes.len(), 32);
    assert_eq!(&bytes[0..4], b"GGUF");
    assert_eq!(u32_at(&bytes, 4), 3);
    assert_eq!(u64_at(&bytes, 8), 0);
    assert_eq!(u64_at(&bytes, 16), 0);
    assert!(bytes[24..].iter().all(|&b| b == 0));
}

#[test]
fn key_values_are_encoded_with_type_tags() {
    let kvs = vec![
        ("a".to_string(), GGUFValue::U32(7)),
        ("bc".to_string(), GGUFValue::String("xyz".to_string())),
        ("f".to_string(), GGUFValue::F32(1.5f32.to_bits())),
        ("arr".to_string(), GGUFValue::ArrayI32(vec![-1, 2])),
        ("s".to_string(), GGUFValue::ArrayString(vec!["p".to_string()])),
        ("big".to_string(), GGUFValue::U64(1 << 40)),
    ];
    let w = GGUFWriter::new(kvs, Vec::new());
    let h = w.header_bytes().unwrap();
    assert_eq!(u64_at(&h, 16), 6);
    let mut p = 24;
    // "a" : u32 7
    assert_eq!(u64_at(&h, p), 1);
    assert_eq!(h[p + 8], b'a');
    p += 9;
    assert_eq!(u32_at(&h, p), 4);
    assert_eq!(u32_at(&h, p + 4), 7);
    p += 8;
    // "bc" : string "xyz"
    assert_eq!(u64_at(&h, p), 2);
    p += 10;
    assert_eq!(u32_at(&h, p), 8);
    assert_eq!(u64_at(&h, p + 4), 3);
    assert_eq!(&h[p + 12..p + 15], b"xyz");
    p += 15;
    // "f" : f32 1.5
    p += 9;
    assert_eq!(u32_at(&h, p), 6);
    assert_eq!(f32::from_bits(u32_at(&h, p + 4)), 1.5);
    p += 8;
    // "arr" : array of i32
    p += 11;
    assert_eq!(u32_at(&h, p), 9);
    assert_eq!(u32_at(&h, p + 4), 5);
    assert_eq!(u64_at(&h, p + 8), 2);
    assert_eq!(u32_at(&h, p + 16) as i32, -1);
    assert_eq!(u32_at(&h, p + 20), 2);
    p += 24;
    // "s" : array of strings
    p += 9;
    assert_eq!(u32_at(&h, p), 9);
    assert_eq!(u32_at(&h, p + 4), 8);
    assert_eq!(u64_at(&h, p + 8), 1);
    assert_eq!(u64_at(&h, p + 16), 1);
    assert_eq!(h[p + 24], b'p');
    p += 25;
    // "big" : u64
    p += 11;
    assert_eq!(u32_at(&h, p), 10);
    assert_eq!(u64_at(&h, p + 4), 1 << 40);
    p += 12;
    assert_eq!(h.len(), (p + 31) / 32 * 32);
}

#[test]
fn tensor_data_is_aligned_and_placed_at_offsets() {
    let t0 = tensor("a", "token_embd.weight", vec![5], vec![1; 20], GGMLType::F32);
    let t1 = tensor("b", "blk.0.attn_q.weight", vec![2, 32], vec![2; 68], GGMLType::Q8_0);
    let t2 = tensor("c", "output.weight", vec![3], vec![3; 3], GGMLType::F32);
    let w = GGUFWriter::new(Vec::new(), vec![t0, t1, t2]);
    let header = w.header_bytes().unwrap();
    assert_eq!(header.len() % 32, 0);
    let bytes = w.to_bytes().unwrap();
    let base = header.len();
    assert_eq!(&bytes[..base], &header[..]);
    // offsets 0, 32, 128; section ends at 160
    assert_eq!(bytes.len(), base + 160);
    assert!(bytes[base..base + 20].iter().all(|&b| b == 1));
    assert!(bytes[base + 20..base + 32].iter().all(|&b| b == 0));
    assert!(bytes[base + 32..base + 100].iter().all(|&b| b == 2));
    assert!(bytes[base + 100..base + 128].iter().all(|&b| b == 0));
    assert!(bytes[base + 128..base + 131].iter().all(|&b| b == 3));
    assert!(bytes[base + 131..].iter().all(|&b| b == 0));
    assert_eq!(w.data_padding(0).unwrap(), 12);
    assert_eq!(w.data_padding(1).unwrap(), 28);
    assert_eq!(w.data_padding(2).unwrap(), 29);
}

#[test]
fn tensor_descriptors_hold_name_shape_type_and_offset() {
    let t0 = tensor("x", "token_embd.weight", vec![5], vec![1; 20], GGMLType::F32);
    let t1 = tensor("y", "blk.0.attn_q.weight", vec![2, 32], vec![2; 68], GGMLType::Q8_0);
    let w = GGUFWriter::new(Vec::new(), vec![t0, t1]);
    let h = w.header_bytes().unwrap();
    assert_eq!(u64_at(&h, 8), 2);
    let mut p = 24;
    let n = u64_at(&h, p) as usize;
    assert_eq!(&h[p + 8..p + 8 + n], b"token_embd.weight");
    p += 8 + n;
    assert_eq!(u32_at(&h, p), 1);
    assert_eq!(u64_at(&h, p + 4), 5);
    assert_eq!(u32_at(&h, p + 12), 0);
    assert_eq!(u64_at(&h, p + 16), 0);
    p += 24;
    let n = u64_at(&h, p) as usize;
    assert_eq!(&h[p + 8..p + 8 + n], b"blk.0.attn_q.weight");
    p += 8 + n;
    assert_eq!(u32_at(&h, p), 2);
    assert_eq!(u64_at(&h, p + 4), 2);
    assert_eq!(u64_at(&h, p + 12), 32);
    assert_eq!(u32_at(&h, p + 20), 8);
    assert_eq!(u64_at(&h, p + 24), 32);
}

#[test]
fn writer_keeps_alignment_and_tensors() {
    let t0 = tensor("x", "output.weight", vec![1], vec![9], GGMLType::F32);
    let w = GGUFWriter::new(Vec::new(), vec![t0]);
    assert_eq!(w.alignment(), 32);
    assert_eq!(w.tensors().len(), 1);
    assert_eq!(w.tensors()[0].data, vec![9]);
}

fn config() -> HFConfig {
    HFConfig {
        model_name: "Qwen2.5".to_string(),
        model_type: "mistral".to_string(),
        hidden_size: 896,
        intermediate_size: 4864,
        num_attention_heads: 14,
        num_hidden_layers: 24,
        num_key_value_heads: None,
        vocab_size: 151936,
        max_position_embeddings: 32768,
        rms_norm_eps: 1e-6f32.to_bits(),
        rope_theta: None,
    }
}

fn as_u32(v: &GGUFValue) -> u32 {
    match v {
        GGUFValue::U32(x) => *x,
        _ => panic!("not a u32"),
    }
}

#[test]
fn architecture_kvs_use_the_architecture_name() {
    let kvs = architecture_kvs(&config());
    assert_eq!(kvs.len(), 13);
    assert_eq!(kvs[0].0, "general.architecture");
    match &kvs[0].1 {
        GGUFValue::String(s) => assert_eq!(s, "llama"),
        _ => panic!("not a string"),
    }
    assert_eq!(as_u32(&kvs[1].1), 2);
    assert_eq!(kvs[3].0, "llama.context_length");
    assert_eq!(as_u32(&kvs[3].1), 32768);
    assert_eq!(kvs[8].0, "llama.attention.head_count_kv");
    assert_eq!(as_u32(&kvs[8].1), 14);
    assert_eq!(kvs[10].0, "llama.rope.dimension_count");
    assert_eq!(as_u32(&kvs[10].1), 64);
    assert_eq!(kvs[11].0, "llama.rope.freq_base");
    match &kvs[11].1 {
        GGUFValue::F32(b) => assert_eq!(f32::from_bits(*b), 10000.0),
        _ => panic!("not an f32"),
    }
    assert_eq!(kvs[12].0, "llama.vocab_size");
}

#[test]
fn architecture_kvs_keep_qwen2() {
    let mut c = config();
    c.model_type = "qwen2".to_string();
    c.num_key_value_heads = Some(2);
    let kvs = architecture_kvs(&c);
    assert_eq!(kvs[4].0, "qwen2.embedding_length");
    assert_eq!(as_u32(&kvs[8].1), 2);
}

#[test]
fn tokenizer_kvs_list_present_ids_only() {
    let info = TokenizerInfo {
        tokens: vec!["a".to_string(), "b".to_string()],
        token_types: vec![1, 3],
        merges: vec!["a b".to_string()],
        bos_token_id: Some(1),
        eos_token_id: None,
        unk_token_id: None,
        pad_token_id: Some(0),
        chat_template: Some("{{x}}".to_string()),
    };
    let kvs = tokenizer_kvs(&info);
    let keys: Vec<&str> = kvs.iter().map(|(k, _)| k.as_str()).collect();
    assert_eq!(
        keys,
        vec![
            "tokenizer.ggml.model",
            "tokenizer.ggml.tokens",
            "tokenizer.ggml.token_type",
            "tokenizer.ggml.merges",
            "tokenizer.ggml.bos_token_id",
            "tokenizer.ggml.padding_token_id",
            "tokenizer.chat_template",
        ]
    );
    match &kvs[1].1 {
        GGUFValue::ArrayString(v) => assert_eq!(v, &info.tokens),
        _ => panic!("not a string array"),
    }
    match &kvs[2].1 {
        GGUFValue::ArrayI32(v) => assert_eq!(v, &vec![1, 3]),
        _ => panic!("not an i32 array"),
    }
    assert_eq!(as_u32(&kvs[4].1), 1);
}

#[test]
fn maps_standard_tensor_names() {
    let cases = [
        ("model.embed_tokens.weight", Some("token_embd.weight")),
        ("embed_tokens.weight", Some("token_embd.weight")),
        ("model.norm.weight", Some("output_norm.weight")),
        ("lm_head.weight", Some("output.weight")),
        ("model.layers.0.self_attn.q_proj.weight", Some("blk.0.attn_q.weight")),
        ("model.layers.12.self_attn.o_proj.bias", Some("blk.12.attn_output.bias")),
        ("model.layers.3.mlp.gate_proj.weight", Some("blk.3.ffn_gate.weight")),
        ("model.layers.3.mlp.down_proj.weight", Some("blk.3.ffn_down.weight")),
        ("model.layers.7.input_layernorm.weight", Some("blk.7.attn_norm.weight")),
        ("model.layers.7.post_attention_layernorm.weight", Some("blk.7.ffn_norm.weight")),
        ("model.layers.7.rotary.inv_freq", None),
        ("model.layers7", None),
        ("model.lm_head.weight", None),
        ("vision.tower", None),
    ];
    for (hf, gguf) in cases {
        assert_eq!(hf_to_ggf_name(hf).as_deref(), gguf, "{hf}");
    }
}

#[test]
fn metadata_values_are_shown_as_when_inspected() {
    assert_eq!(GGUFValue::U32(12345).display_text(""), "12345");
    assert_eq!(GGUFValue::U64(0).display_text(""), "0");
    assert_eq!(GGUFValue::U64(u64::MAX).display_text(""), u64::MAX.to_string());
    assert_eq!(GGUFValue::F32(1.5f32.to_bits()).display_text("1.5"), "1.5");
    assert_eq!(GGUFValue::String("qwen2".to_string()).display_text(""), "qwen2");
    let long = "abcdefghijklmnopqrstuvwxyz0123456789".to_string();
    assert_eq!(
        GGUFValue::String(long.clone()).display_text(""),
        format!("{:.10}... [{} chars]", long, long.len())
    );
    assert_eq!(GGUFValue::String(long).display_text(""), "abcdefghij... [36 chars]");
    let wide = "é".repeat(16);
    assert_eq!(
        GGUFValue::String(wide.clone()).display_text(""),
        format!("{:.10}... [{} chars]", wide, wide.len())
    );
    assert_eq!(
        GGUFValue::ArrayString(vec!["a".to_string(); 3]).display_text(""),
        "[3 strings]"
    );
    assert_eq!(GGUFValue::ArrayI32(vec![1, 2]).display_text(""), "[2 i32s]");
}
