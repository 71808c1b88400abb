//! The parts of a HuggingFace `config.json` that GGUF metadata needs.

use crate::error::Error;
use crate::text::{owned, str_eq};
use vstd::prelude::*;

verus! {

/// The IEEE-754 bit pattern of `10000.0f32`, the default RoPE base frequency.
pub const DEFAULT_ROPE_THETA_BITS: u32 = 0x461C_4000;

/// Holds the information from the huggingface model's config file.
///
/// The 32-bit floats `rms_norm_eps` and `rope_theta` are held by their
/// IEEE-754 bit patterns.
pub struct HFConfig {
    pub model_name: String,
    pub model_type: String,
    pub hidden_size: u32,
    pub intermediate_size: u32,
    pub num_attention_heads: u32,
    pub num_hidden_layers: u32,
    pub num_key_value_heads: Option<u32>,
    pub vocab_size: u32,
    pub max_position_embeddings: u32,
    pub rms_norm_eps: u32,
    pub rope_theta: Option<u32>,
}

/// The model types whose architecture metadata is mapped.
pub open spec fn is_supported_model_type(t: Seq<char>) -> bool {
    t == "llama"@ || t == "mistral"@ || t == "qwen2"@
}

/// The number of key/value heads: the configured one, else the number of
/// attention heads.
pub open spec fn num_key_value_heads_spec(c: HFConfig) -> u32 {
    match c.num_key_value_heads {
        Some(n) => n,
        None => c.num_attention_heads,
    }
}

/// The RoPE base frequency: the configured one, else `10000.0`.
pub open spec fn rope_theta_spec(c: HFConfig) -> u32 {
    match c.rope_theta {
        Some(t) => t,
        None => DEFAULT_ROPE_THETA_BITS,
    }
}

/// Exactly the model types `llama`, `mistral` and `qwen2` are accepted.
pub proof fn lemma_supported_model_types(t: Seq<char>)
    ensures
        is_supported_model_type(t) <==> (t == "llama"@ || t == "mistral"@ || t == "qwen2"@),
{
}

impl HFConfig {
    /// Completes a parsed config: refuses model types other than `llama`,
    /// `mistral` and `qwen2` (`UnsupportedModelType`), and where the config
    /// names no model, names it after the model's directory, or `unknown`.
    pub fn finish_load(config: HFConfig, dir_name: Option<String>) -> (r: Result<HFConfig, Error>)
        ensures
            r is Ok <==> is_supported_model_type(config.model_type@),
            r matches Err(e) ==> e matches Error::UnsupportedModelType(t) && t@
                == config.model_type@,
            r matches Ok(c) ==> {
                &&& c.model_type@ == config.model_type@
                &&& c.model_name@ == if config.model_name@.len() > 0 {
                    config.model_name@
                } else {
                    match dir_name {
                        Some(d) => d@,
                        None => "unknown"@,
                    }
                }
                &&& c.hidden_size == config.hidden_size
                &&& c.intermediate_size == config.intermediate_size
                &&& c.num_attention_heads == config.num_attention_heads
                &&& c.num_hidden_layers == config.num_hidden_layers
                &&& c.num_key_value_heads == config.num_key_value_heads
                &&& c.vocab_size == config.vocab_size
                &&& c.max_position_embeddings == config.max_position_embeddings
                &&& c.rms_norm_eps == config.rms_norm_eps
                &&& c.rope_theta == config.rope_theta
            },
    {
        let mt = config.model_type.as_str();
        if !(str_eq(mt, "llama") || str_eq(mt, "mistral") || str_eq(mt, "qwen2")) {
            return Err(Error::UnsupportedModelType(config.model_type.clone()));
        }
        let mut config = config;
        if config.model_name.as_str().is_empty() {
            config.model_name = match dir_name {
                Some(d) => d,
                None => owned("unknown"),
            };
        }
        Ok(config)
    }

    /// Returns the value of the number of key value heads if it is set.
    /// If the value is not set, defaults to the number of attention heads.
    pub fn num_key_value_heads(&self) -> (r: u32)
        ensures
            r == num_key_value_heads_spec(*self),
    {
        match self.num_key_value_heads {
            Some(n) => n,
            None => self.num_attention_heads,
        }
    }

    /// Returns the bit pattern of `rope_theta` if it was set in the config.
    /// If not, it defaults to that of `10000.0`.
    pub fn rope_theta(&self) -> (r: u32)
        ensures
            r == rope_theta_spec(*self),
    {
        match self.rope_theta {
            Some(t) => t,
            None => DEFAULT_ROPE_THETA_BITS,
        }
    }
}

} // verus!
