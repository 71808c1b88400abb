use erissery_core::error::Error;
use erissery_core::hf_config::{HFConfig, DEFAULT_ROPE_THETA_BITS};

fn make_hf_config(num_key_value_heads: Option<u32>, rope_theta: Option<f32>) -> HFConfig {
    HFConfig {
        model_name: "test_model".to_string(),
        model_type: "test_model_type".to_string(),
        hidden_size: 12,
        intermediate_size: 11,
        num_attention_heads: 89,
        num_hidden_layers: 91,
        num_key_value_heads,
        vocab_size: 70,
        max_position_embeddings: 33,
        rms_norm_eps: 1.24f32.to_bits(),
        rope_theta: rope_theta.map(f32::to_bits),
    }
}

#[test]
fn test_num_key_value_heads_with_value() {
    let hf_config = make_hf_config(Some(99), Some(1f32));

    assert_eq!(hf_config.num_key_value_heads(), 99);
}

#[test]
fn test_num_key_value_heads_without_value() {
    let hf_config = make_hf_config(None, Some(1f32));

    assert_eq!(
        hf_config.num_key_value_heads(),
        hf_config.num_attention_heads
    );
}

#[test]
fn test_rope_theta_with_value() {
    let hf_config = make_hf_config(Some(99), Some(1f32));

    assert_eq!(f32::from_bits(hf_config.rope_theta()), 1f32);
}

#[test]
fn test_rope_theta_without_value() {
    let hf_config = make_hf_config(None, None);

    assert_eq!(f32::from_bits(hf_config.rope_theta()), 10000.0);
}

#[test]
fn default_rope_theta_bits_are_ten_thousand() {
    assert_eq!(f32::from_bits(DEFAULT_ROPE_THETA_BITS), 10000.0f32);
}

#[test]
fn finish_load_refuses_unsupported_model_type() {
    let config = make_hf_config(None, None);
    match HFConfig::finish_load(config, None) {
        Err(Error::UnsupportedModelType(t)) => assert_eq!(t, "test_model_type"),
        _ => panic!("expected UnsupportedModelType"),
    }
}

#[test]
fn finish_load_accepts_supported_types() {
    for t in ["llama", "mistral", "qwen2"] {
        let mut config = make_hf_config(Some(2), None);
        config.model_type = t.to_string();
        let loaded = HFConfig::finish_load(config, Some("dir".to_string())).ok().unwrap();
        assert_eq!(loaded.model_type, t);
        assert_eq!(loaded.model_name, "test_model");
        assert_eq!(loaded.num_key_value_heads, Some(2));
        assert_eq!(loaded.hidden_size, 12);
    }
}

#[test]
fn finish_load_names_model_after_directory() {
    let mut config = make_hf_config(None, None);
    config.model_type = "llama".to_string();
    config.model_name = String::new();
    let loaded = HFConfig::finish_load(config, Some("qwen2.5-0.5b".to_string())).ok().unwrap();
    assert_eq!(loaded.model_name, "qwen2.5-0.5b");
}

#[test]
fn finish_load_names_model_unknown_without_directory() {
    let mut config = make_hf_config(None, None);
    config.model_type = "qwen2".to_string();
    config.model_name = String::new();
    let loaded = HFConfig::finish_load(config, None).ok().unwrap();
    assert_eq!(loaded.model_name, "unknown");
}
