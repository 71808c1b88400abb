//! Standard GGUF names of HuggingFace tensors.
//!
//! Reference: https://github.com/ggml-org/ggml/blob/master/docs/gguf.md#standardized-tensor-names

use crate::text::{find_char, has_prefix, is_first_index, is_prefix, owned, str_eq};
use vstd::prelude::*;
use vstd::string::*;

verus! {

/// The GGUF suffix of a HuggingFace per-layer tensor suffix, if it is mapped.
pub open spec fn gguf_suffix_spec(suffix: Seq<char>) -> Option<Seq<char>> {
    if suffix == "self_attn.q_proj.weight"@ {
        Some("attn_q.weight"@)
    } else if suffix == "self_attn.k_proj.weight"@ {
        Some("attn_k.weight"@)
    } else if suffix == "self_attn.v_proj.weight"@ {
        Some("attn_v.weight"@)
    } else if suffix == "self_attn.o_proj.weight"@ {
        Some("attn_output.weight"@)
    } else if suffix == "self_attn.q_proj.bias"@ {
        Some("attn_q.bias"@)
    } else if suffix == "self_attn.k_proj.bias"@ {
        Some("attn_k.bias"@)
    } else if suffix == "self_attn.v_proj.bias"@ {
        Some("attn_v.bias"@)
    } else if suffix == "self_attn.o_proj.bias"@ {
        Some("attn_output.bias"@)
    } else if suffix == "mlp.gate_proj.weight"@ {
        Some("ffn_gate.weight"@)
    } else if suffix == "mlp.up_proj.weight"@ {
        Some("ffn_up.weight"@)
    } else if suffix == "mlp.down_proj.weight"@ {
        Some("ffn_down.weight"@)
    } else if suffix == "input_layernorm.weight"@ {
        Some("attn_norm.weight"@)
    } else if suffix == "post_attention_layernorm.weight"@ {
        Some("ffn_norm.weight"@)
    } else {
        None
    }
}

/// The name with a leading `model.` removed.
pub open spec fn strip_model_prefix(hf: Seq<char>) -> Seq<char> {
    if is_prefix("model."@, hf) {
        hf.subrange("model."@.len() as int, hf.len() as int)
    } else {
        hf
    }
}

/// The standard GGUF name of a HuggingFace tensor name, if it is mapped.
///
/// `embed_tokens.weight`, `norm.weight` (each with or without `model.`) and
/// `lm_head.weight` have names of their own; `layers.<n>.<suffix>` becomes
/// `blk.<n>.<gguf suffix>` for the mapped suffixes; nothing else is mapped.
pub open spec fn hf_to_gguf_name_spec(hf: Seq<char>) -> Option<Seq<char>> {
    let name = strip_model_prefix(hf);
    if name == "embed_tokens.weight"@ {
        Some("token_embd.weight"@)
    } else if name == "norm.weight"@ {
        Some("output_norm.weight"@)
    } else if hf == "lm_head.weight"@ {
        Some("output.weight"@)
    } else if !is_prefix("layers."@, name) {
        None
    } else {
        let rest = name.subrange("layers."@.len() as int, name.len() as int);
        if exists|d: int| is_first_index(rest, '.', d) {
            let d = choose|d: int| is_first_index(rest, '.', d);
            match gguf_suffix_spec(rest.subrange(d + 1, rest.len() as int)) {
                Some(g) => Some("blk."@ + rest.subrange(0, d) + "."@ + g),
                None => None,
            }
        } else {
            None
        }
    }
}

/// The first position of a character is unique.
proof fn lemma_first_index_unique(s: Seq<char>, c: char, i: int, j: int)
    requires
        is_first_index(s, c, i),
        is_first_index(s, c, j),
    ensures
        i == j,
{
}

/// The standard names of the model-wide tensors: the token embeddings
/// become `token_embd.weight` and the final norm `output_norm.weight`, with
/// or without `model.`, and `lm_head.weight` becomes `output.weight`.
pub proof fn lemma_model_tensor_names()
    ensures
        hf_to_gguf_name_spec("model.embed_tokens.weight"@) == Some("token_embd.weight"@),
        hf_to_gguf_name_spec("embed_tokens.weight"@) == Some("token_embd.weight"@),
        hf_to_gguf_name_spec("model.norm.weight"@) == Some("output_norm.weight"@),
        hf_to_gguf_name_spec("norm.weight"@) == Some("output_norm.weight"@),
        hf_to_gguf_name_spec("lm_head.weight"@) == Some("output.weight"@),
{
    reveal_strlit("model.");
    reveal_strlit("model.embed_tokens.weight");
    reveal_strlit("embed_tokens.weight");
    reveal_strlit("model.norm.weight");
    reveal_strlit("norm.weight");
    reveal_strlit("lm_head.weight");
    assert("model.embed_tokens.weight"@.subrange(0, 6) =~= "model."@);
    assert("model.embed_tokens.weight"@.subrange(6, 25) =~= "embed_tokens.weight"@);
    assert("model.norm.weight"@.subrange(0, 6) =~= "model."@);
    assert("model.norm.weight"@.subrange(6, 17) =~= "norm.weight"@);
    assert("embed_tokens.weight"@[0] != "model."@[0]);
    assert("norm.weight"@[0] != "model."@[0]);
    assert("lm_head.weight"@[0] != "model."@[0]);
    assert("norm.weight"@.len() != "embed_tokens.weight"@.len());
    assert("lm_head.weight"@.len() != "embed_tokens.weight"@.len());
    assert("lm_head.weight"@.len() != "norm.weight"@.len());
}

/// The standard names of per-layer tensors: for every layer `n` (a name
/// without `.`), `model.layers.<n>.<part>` and `layers.<n>.<part>` become
/// `blk.<n>.<gguf part>` for each attention projection (`q_proj` to `attn_q`,
/// `k_proj` to `attn_k`, `v_proj` to `attn_v`, `o_proj` to `attn_output`,
/// weights and biases), each feed-forward projection (`gate_proj` to
/// `ffn_gate`, `up_proj` to `ffn_up`, `down_proj` to `ffn_down`) and each norm
/// (`input_layernorm` to `attn_norm`, `post_attention_layernorm` to
/// `ffn_norm`).
pub proof fn lemma_layer_tensor_names(n: Seq<char>)
    requires
        forall|i: int| 0 <= i < n.len() ==> n[i] != '.',
    ensures
        hf_to_gguf_name_spec("model.layers."@ + n + ".self_attn.q_proj.weight"@) == Some("blk."@ + n + ".attn_q.weight"@),
        hf_to_gguf_name_spec("model.layers."@ + n + ".self_attn.k_proj.weight"@) == Some("blk."@ + n + ".attn_k.weight"@),
        hf_to_gguf_name_spec("model.layers."@ + n + ".self_attn.v_proj.weight"@) == Some("blk."@ + n + ".attn_v.weight"@),
        hf_to_gguf_name_spec("model.layers."@ + n + ".self_attn.o_proj.weight"@) == Some("blk."@ + n + ".attn_output.weight"@),
        hf_to_gguf_name_spec("model.layers."@ + n + ".self_attn.q_proj.bias"@) == Some("blk."@ + n + ".attn_q.bias"@),
        hf_to_gguf_name_spec("model.layers."@ + n + ".self_attn.k_proj.bias"@) == Some("blk."@ + n + ".attn_k.bias"@),
        hf_to_gguf_name_spec("model.layers."@ + n + ".self_attn.v_proj.bias"@) == Some("blk."@ + n + ".attn_v.bias"@),
        hf_to_gguf_name_spec("model.layers."@ + n + ".self_attn.o_proj.bias"@) == Some("blk."@ + n + ".attn_output.bias"@),
        hf_to_gguf_name_spec("model.layers."@ + n + ".mlp.gate_proj.weight"@) == Some("blk."@ + n + ".ffn_gate.weight"@),
        hf_to_gguf_name_spec("model.layers."@ + n + ".mlp.up_proj.weight"@) == Some("blk."@ + n + ".ffn_up.weight"@),
        hf_to_gguf_name_spec("model.layers."@ + n + ".mlp.down_proj.weight"@) == Some("blk."@ + n + ".ffn_down.weight"@),
        hf_to_gguf_name_spec("model.layers."@ + n + ".input_layernorm.weight"@) == Some("blk."@ + n + ".attn_norm.weight"@),
        hf_to_gguf_name_spec("model.layers."@ + n + ".post_attention_layernorm.weight"@) == Some("blk."@ + n + ".ffn_norm.weight"@),
        hf_to_gguf_name_spec("layers."@ + n + ".self_attn.q_proj.weight"@) == Some("blk."@ + n + ".attn_q.weight"@),
        hf_to_gguf_name_spec("layers."@ + n + ".self_attn.k_proj.weight"@) == Some("blk."@ + n + ".attn_k.weight"@),
        hf_to_gguf_name_spec("layers."@ + n + ".self_attn.v_proj.weight"@) == Some("blk."@ + n + ".attn_v.weight"@),
        hf_to_gguf_name_spec("layers."@ + n + ".self_attn.o_proj.weight"@) == Some("blk."@ + n + ".attn_output.weight"@),
        hf_to_gguf_name_spec("layers."@ + n + ".self_attn.q_proj.bias"@) == Some("blk."@ + n + ".attn_q.bias"@),
        hf_to_gguf_name_spec("layers."@ + n + ".self_attn.k_proj.bias"@) == Some("blk."@ + n + ".attn_k.bias"@),
        hf_to_gguf_name_spec("layers."@ + n + ".self_attn.v_proj.bias"@) == Some("blk."@ + n + ".attn_v.bias"@),
        hf_to_gguf_name_spec("layers."@ + n + ".self_attn.o_proj.bias"@) == Some("blk."@ + n + ".attn_output.bias"@),
        hf_to_gguf_name_spec("layers."@ + n + ".mlp.gate_proj.weight"@) == Some("blk."@ + n + ".ffn_gate.weight"@),
        hf_to_gguf_name_spec("layers."@ + n + ".mlp.up_proj.weight"@) == Some("blk."@ + n + ".ffn_up.weight"@),
        hf_to_gguf_name_spec("layers."@ + n + ".mlp.down_proj.weight"@) == Some("blk."@ + n + ".ffn_down.weight"@),
        hf_to_gguf_name_spec("layers."@ + n + ".input_layernorm.weight"@) == Some("blk."@ + n + ".attn_norm.weight"@),
        hf_to_gguf_name_spec("layers."@ + n + ".post_attention_layernorm.weight"@) == Some("blk."@ + n + ".ffn_norm.weight"@),
{
    lemma_part_self_attn_q_proj_weight(n);
    lemma_part_self_attn_k_proj_weight(n);
    lemma_part_self_attn_v_proj_weight(n);
    lemma_part_self_attn_o_proj_weight(n);
    lemma_part_self_attn_q_proj_bias(n);
    lemma_part_self_attn_k_proj_bias(n);
    lemma_part_self_attn_v_proj_bias(n);
    lemma_part_self_attn_o_proj_bias(n);
    lemma_part_mlp_gate_proj_weight(n);
    lemma_part_mlp_up_proj_weight(n);
    lemma_part_mlp_down_proj_weight(n);
    lemma_part_input_layernorm_weight(n);
    lemma_part_post_attention_layernorm_weight(n);
}

/// `self_attn.q_proj.weight` becomes `attn_q.weight`.
proof fn lemma_part_self_attn_q_proj_weight(n: Seq<char>)
    requires
        forall|i: int| 0 <= i < n.len() ==> n[i] != '.',
    ensures
        hf_to_gguf_name_spec("model.layers."@ + n + ".self_attn.q_proj.weight"@) == Some("blk."@ + n + ".attn_q.weight"@),
        hf_to_gguf_name_spec("layers."@ + n + ".self_attn.q_proj.weight"@) == Some("blk."@ + n + ".attn_q.weight"@),
{
    reveal_strlit(".");
    reveal_strlit("self_attn.q_proj.weight");
    reveal_strlit(".self_attn.q_proj.weight");
    reveal_strlit("attn_q.weight");
    reveal_strlit(".attn_q.weight");

    assert(gguf_suffix_spec("self_attn.q_proj.weight"@) == Some("attn_q.weight"@));
    assert(".self_attn.q_proj.weight"@ =~= "."@ + "self_attn.q_proj.weight"@);
    assert(".attn_q.weight"@ =~= "."@ + "attn_q.weight"@);
    lemma_layer_part(n, "self_attn.q_proj.weight"@, ".self_attn.q_proj.weight"@, "attn_q.weight"@, ".attn_q.weight"@);
}

/// `self_attn.k_proj.weight` becomes `attn_k.weight`.
proof fn lemma_part_self_attn_k_proj_weight(n: Seq<char>)
    requires
        forall|i: int| 0 <= i < n.len() ==> n[i] != '.',
    ensures
        hf_to_gguf_name_spec("model.layers."@ + n + ".self_attn.k_proj.weight"@) == Some("blk."@ + n + ".attn_k.weight"@),
        hf_to_gguf_name_spec("layers."@ + n + ".self_attn.k_proj.weight"@) == Some("blk."@ + n + ".attn_k.weight"@),
{
    reveal_strlit(".");
    reveal_strlit("self_attn.k_proj.weight");
    reveal_strlit(".self_attn.k_proj.weight");
    reveal_strlit("attn_k.weight");
    reveal_strlit(".attn_k.weight");
    reveal_strlit("self_attn.q_proj.weight");
    assert("self_attn.k_proj.weight"@[10] != "self_attn.q_proj.weight"@[10]);
    assert(gguf_suffix_spec("self_attn.k_proj.weight"@) == Some("attn_k.weight"@));
    assert(".self_attn.k_proj.weight"@ =~= "."@ + "self_attn.k_proj.weight"@);
    assert(".attn_k.weight"@ =~= "."@ + "attn_k.weight"@);
    lemma_layer_part(n, "self_attn.k_proj.weight"@, ".self_attn.k_proj.weight"@, "attn_k.weight"@, ".attn_k.weight"@);
}

/// `self_attn.v_proj.weight` becomes `attn_v.weight`.
proof fn lemma_part_self_attn_v_proj_weight(n: Seq<char>)
    requires
        forall|i: int| 0 <= i < n.len() ==> n[i] != '.',
    ensures
        hf_to_gguf_name_spec("model.layers."@ + n + ".self_attn.v_proj.weight"@) == Some("blk."@ + n + ".attn_v.weight"@),
        hf_to_gguf_name_spec("layers."@ + n + ".self_attn.v_proj.weight"@) == Some("blk."@ + n + ".attn_v.weight"@),
{
    reveal_strlit(".");
    reveal_strlit("self_attn.v_proj.weight");
    reveal_strlit(".self_attn.v_proj.weight");
    reveal_strlit("attn_v.weight");
    reveal_strlit(".attn_v.weight");
    reveal_strlit("self_attn.q_proj.weight");
    assert("self_attn.v_proj.weight"@[10] != "self_attn.q_proj.weight"@[10]);
    reveal_strlit("self_attn.k_proj.weight");
    assert("self_attn.v_proj.weight"@[10] != "self_attn.k_proj.weight"@[10]);
    assert(gguf_suffix_spec("self_attn.v_proj.weight"@) == Some("attn_v.weight"@));
    assert(".self_attn.v_proj.weight"@ =~= "."@ + "self_attn.v_proj.weight"@);
    assert(".attn_v.weight"@ =~= "."@ + "attn_v.weight"@);
    lemma_layer_part(n, "self_attn.v_proj.weight"@, ".self_attn.v_proj.weight"@, "attn_v.weight"@, ".attn_v.weight"@);
}

/// `self_attn.o_proj.weight` becomes `attn_output.weight`.
proof fn lemma_part_self_attn_o_proj_weight(n: Seq<char>)
    requires
        forall|i: int| 0 <= i < n.len() ==> n[i] != '.',
    ensures
        hf_to_gguf_name_spec("model.layers."@ + n + ".self_attn.o_proj.weight"@) == Some("blk."@ + n + ".attn_output.weight"@),
        hf_to_gguf_name_spec("layers."@ + n + ".self_attn.o_proj.weight"@) == Some("blk."@ + n + ".attn_output.weight"@),
{
    reveal_strlit(".");
    reveal_strlit("self_attn.o_proj.weight");
    reveal_strlit(".self_attn.o_proj.weight");
    reveal_strlit("attn_output.weight");
    reveal_strlit(".attn_output.weight");
    reveal_strlit("self_attn.q_proj.weight");
    assert("self_attn.o_proj.weight"@[10] != "self_attn.q_proj.weight"@[10]);
    reveal_strlit("self_attn.k_proj.weight");
    assert("self_attn.o_proj.weight"@[10] != "self_attn.k_proj.weight"@[10]);
    reveal_strlit("self_attn.v_proj.weight");
    assert("self_attn.o_proj.weight"@[10] != "self_attn.v_proj.weight"@[10]);
    assert(gguf_suffix_spec("self_attn.o_proj.weight"@) == Some("attn_output.weight"@));
    assert(".self_attn.o_proj.weight"@ =~= "."@ + "self_attn.o_proj.weight"@);
    assert(".attn_output.weight"@ =~= "."@ + "attn_output.weight"@);
    lemma_layer_part(n, "self_attn.o_proj.weight"@, ".self_attn.o_proj.weight"@, "attn_output.weight"@, ".attn_output.weight"@);
}

/// `self_attn.q_proj.bias` becomes `attn_q.bias`.
proof fn lemma_part_self_attn_q_proj_bias(n: Seq<char>)
    requires
        forall|i: int| 0 <= i < n.len() ==> n[i] != '.',
    ensures
        hf_to_gguf_name_spec("model.layers."@ + n + ".self_attn.q_proj.bias"@) == Some("blk."@ + n + ".attn_q.bias"@),
        hf_to_gguf_name_spec("layers."@ + n + ".self_attn.q_proj.bias"@) == Some("blk."@ + n + ".attn_q.bias"@),
{
    reveal_strlit(".");
    reveal_strlit("self_attn.q_proj.bias");
    reveal_strlit(".self_attn.q_proj.bias");
    reveal_strlit("attn_q.bias");
    reveal_strlit(".attn_q.bias");
    reveal_strlit("self_attn.q_proj.weight");
    assert("self_attn.q_proj.bias"@.len() != "self_attn.q_proj.weight"@.len());
    reveal_strlit("self_attn.k_proj.weight");
    assert("self_attn.q_proj.bias"@.len() != "self_attn.k_proj.weight"@.len());
    reveal_strlit("self_attn.v_proj.weight");
    assert("self_attn.q_proj.bias"@.len() != "self_attn.v_proj.weight"@.len());
    reveal_strlit("self_attn.o_proj.weight");
    assert("self_attn.q_proj.bias"@.len() != "self_attn.o_proj.weight"@.len());
    assert(gguf_suffix_spec("self_attn.q_proj.bias"@) == Some("attn_q.bias"@));
    assert(".self_attn.q_proj.bias"@ =~= "."@ + "self_attn.q_proj.bias"@);
    assert(".attn_q.bias"@ =~= "."@ + "attn_q.bias"@);
    lemma_layer_part(n, "self_attn.q_proj.bias"@, ".self_attn.q_proj.bias"@, "attn_q.bias"@, ".attn_q.bias"@);
}

/// `self_attn.k_proj.bias` becomes `attn_k.bias`.
proof fn lemma_part_self_attn_k_proj_bias(n: Seq<char>)
    requires
        forall|i: int| 0 <= i < n.len() ==> n[i] != '.',
    ensures
        hf_to_gguf_name_spec("model.layers."@ + n + ".self_attn.k_proj.bias"@) == Some("blk."@ + n + ".attn_k.bias"@),
        hf_to_gguf_name_spec("layers."@ + n + ".self_attn.k_proj.bias"@) == Some("blk."@ + n + ".attn_k.bias"@),
{
    reveal_strlit(".");
    reveal_strlit("self_attn.k_proj.bias");
    reveal_strlit(".self_attn.k_proj.bias");
    reveal_strlit("attn_k.bias");
    reveal_strlit(".attn_k.bias");
    reveal_strlit("self_attn.q_proj.weight");
    assert("self_attn.k_proj.bias"@.len() != "self_attn.q_proj.weight"@.len());
    reveal_strlit("self_attn.k_proj.weight");
    assert("self_attn.k_proj.bias"@.len() != "self_attn.k_proj.weight"@.len());
    reveal_strlit("self_attn.v_proj.weight");
    assert("self_attn.k_proj.bias"@.len() != "self_attn.v_proj.weight"@.len());
    reveal_strlit("self_attn.o_proj.weight");
    assert("self_attn.k_proj.bias"@.len() != "self_attn.o_proj.weight"@.len());
    reveal_strlit("self_attn.q_proj.bias");
    assert("self_attn.k_proj.bias"@[10] != "self_attn.q_proj.bias"@[10]);
    assert(gguf_suffix_spec("self_attn.k_proj.bias"@) == Some("attn_k.bias"@));
    assert(".self_attn.k_proj.bias"@ =~= "."@ + "self_attn.k_proj.bias"@);
    assert(".attn_k.bias"@ =~= "."@ + "attn_k.bias"@);
    lemma_layer_part(n, "self_attn.k_proj.bias"@, ".self_attn.k_proj.bias"@, "attn_k.bias"@, ".attn_k.bias"@);
}

/// `self_attn.v_proj.bias` becomes `attn_v.bias`.
proof fn lemma_part_self_attn_v_proj_bias(n: Seq<char>)
    requires
        forall|i: int| 0 <= i < n.len() ==> n[i] != '.',
    ensures
        hf_to_gguf_name_spec("model.layers."@ + n + ".self_attn.v_proj.bias"@) == Some("blk."@ + n + ".attn_v.bias"@),
        hf_to_gguf_name_spec("layers."@ + n + ".self_attn.v_proj.bias"@) == Some("blk."@ + n + ".attn_v.bias"@),
{
    reveal_strlit(".");
    reveal_strlit("self_attn.v_proj.bias");
    reveal_strlit(".self_attn.v_proj.bias");
    reveal_strlit("attn_v.bias");
    reveal_strlit(".attn_v.bias");
    reveal_strlit("self_attn.q_proj.weight");
    assert("self_attn.v_proj.bias"@.len() != "self_attn.q_proj.weight"@.len());
    reveal_strlit("self_attn.k_proj.weight");
    assert("self_attn.v_proj.bias"@.len() != "self_attn.k_proj.weight"@.len());
    reveal_strlit("self_attn.v_proj.weight");
    assert("self_attn.v_proj.bias"@.len() != "self_attn.v_proj.weight"@.len());
    reveal_strlit("self_attn.o_proj.weight");
    assert("self_attn.v_proj.bias"@.len() != "self_attn.o_proj.weight"@.len());
    reveal_strlit("self_attn.q_proj.bias");
    assert("self_attn.v_proj.bias"@[10] != "self_attn.q_proj.bias"@[10]);
    reveal_strlit("self_attn.k_proj.bias");
    assert("self_attn.v_proj.bias"@[10] != "self_attn.k_proj.bias"@[10]);
    assert(gguf_suffix_spec("self_attn.v_proj.bias"@) == Some("attn_v.bias"@));
    assert(".self_attn.v_proj.bias"@ =~= "."@ + "self_attn.v_proj.bias"@);
    assert(".attn_v.bias"@ =~= "."@ + "attn_v.bias"@);
    lemma_layer_part(n, "self_attn.v_proj.bias"@, ".self_attn.v_proj.bias"@, "attn_v.bias"@, ".attn_v.bias"@);
}

/// `self_attn.o_proj.bias` becomes `attn_output.bias`.
proof fn lemma_part_self_attn_o_proj_bias(n: Seq<char>)
    requires
        forall|i: int| 0 <= i < n.len() ==> n[i] != '.',
    ensures
        hf_to_gguf_name_spec("model.layers."@ + n + ".self_attn.o_proj.bias"@) == Some("blk."@ + n + ".attn_output.bias"@),
        hf_to_gguf_name_spec("layers."@ + n + ".self_attn.o_proj.bias"@) == Some("blk."@ + n + ".attn_output.bias"@),
{
    reveal_strlit(".");
    reveal_strlit("self_attn.o_proj.bias");
    reveal_strlit(".self_attn.o_proj.bias");
    reveal_strlit("attn_output.bias");
    reveal_strlit(".attn_output.bias");
    reveal_strlit("self_attn.q_proj.weight");
    assert("self_attn.o_proj.bias"@.len() != "self_attn.q_proj.weight"@.len());
    reveal_strlit("self_attn.k_proj.weight");
    assert("self_attn.o_proj.bias"@.len() != "self_attn.k_proj.weight"@.len());
    reveal_strlit("self_attn.v_proj.weight");
    assert("self_attn.o_proj.bias"@.len() != "self_attn.v_proj.weight"@.len());
    reveal_strlit("self_attn.o_proj.weight");
    assert("self_attn.o_proj.bias"@.len() != "self_attn.o_proj.weight"@.len());
    reveal_strlit("self_attn.q_proj.bias");
    assert("self_attn.o_proj.bias"@[10] != "self_attn.q_proj.bias"@[10]);
    reveal_strlit("self_attn.k_proj.bias");
    assert("self_attn.o_proj.bias"@[10] != "self_attn.k_proj.bias"@[10]);
    reveal_strlit("self_attn.v_proj.bias");
    assert("self_attn.o_proj.bias"@[10] != "self_attn.v_proj.bias"@[10]);
    assert(gguf_suffix_spec("self_attn.o_proj.bias"@) == Some("attn_output.bias"@));
    assert(".self_attn.o_proj.bias"@ =~= "."@ + "self_attn.o_proj.bias"@);
    assert(".attn_output.bias"@ =~= "."@ + "attn_output.bias"@);
    lemma_layer_part(n, "self_attn.o_proj.bias"@, ".self_attn.o_proj.bias"@, "attn_output.bias"@, ".attn_output.bias"@);
}

/// `mlp.gate_proj.weight` becomes `ffn_gate.weight`.
proof fn lemma_part_mlp_gate_proj_weight(n: Seq<char>)
    requires
        forall|i: int| 0 <= i < n.len() ==> n[i] != '.',
    ensures
        hf_to_gguf_name_spec("model.layers."@ + n + ".mlp.gate_proj.weight"@) == Some("blk."@ + n + ".ffn_gate.weight"@),
        hf_to_gguf_name_spec("layers."@ + n + ".mlp.gate_proj.weight"@) == Some("blk."@ + n + ".ffn_gate.weight"@),
{
    reveal_strlit(".");
    reveal_strlit("mlp.gate_proj.weight");
    reveal_strlit(".mlp.gate_proj.weight");
    reveal_strlit("ffn_gate.weight");
    reveal_strlit(".ffn_gate.weight");
    reveal_strlit("self_attn.q_proj.weight");
    assert("mlp.gate_proj.weight"@.len() != "self_attn.q_proj.weight"@.len());
    reveal_strlit("self_attn.k_proj.weight");
    assert("mlp.gate_proj.weight"@.len() != "self_attn.k_proj.weight"@.len());
    reveal_strlit("self_attn.v_proj.weight");
    assert("mlp.gate_proj.weight"@.len() != "self_attn.v_proj.weight"@.len());
    reveal_strlit("self_attn.o_proj.weight");
    assert("mlp.gate_proj.weight"@.len() != "self_attn.o_proj.weight"@.len());
    reveal_strlit("self_attn.q_proj.bias");
    assert("mlp.gate_proj.weight"@.len() != "self_attn.q_proj.bias"@.len());
    reveal_strlit("self_attn.k_proj.bias");
    assert("mlp.gate_proj.weight"@.len() != "self_attn.k_proj.bias"@.len());
    reveal_strlit("self_attn.v_proj.bias");
    assert("mlp.gate_proj.weight"@.len() != "self_attn.v_proj.bias"@.len());
    reveal_strlit("self_attn.o_proj.bias");
    assert("mlp.gate_proj.weight"@.len() != "self_attn.o_proj.bias"@.len());
    assert(gguf_suffix_spec("mlp.gate_proj.weight"@) == Some("ffn_gate.weight"@));
    assert(".mlp.gate_proj.weight"@ =~= "."@ + "mlp.gate_proj.weight"@);
    assert(".ffn_gate.weight"@ =~= "."@ + "ffn_gate.weight"@);
    lemma_layer_part(n, "mlp.gate_proj.weight"@, ".mlp.gate_proj.weight"@, "ffn_gate.weight"@, ".ffn_gate.weight"@);
}

/// `mlp.up_proj.weight` becomes `ffn_up.weight`.
proof fn lemma_part_mlp_up_proj_weight(n: Seq<char>)
    requires
        forall|i: int| 0 <= i < n.len() ==> n[i] != '.',
    ensures
        hf_to_gguf_name_spec("model.layers."@ + n + ".mlp.up_proj.weight"@) == Some("blk."@ + n + ".ffn_up.weight"@),
        hf_to_gguf_name_spec("layers."@ + n + ".mlp.up_proj.weight"@) == Some("blk."@ + n + ".ffn_up.weight"@),
{
    reveal_strlit(".");
    reveal_strlit("mlp.up_proj.weight");
    reveal_strlit(".mlp.up_proj.weight");
    reveal_strlit("ffn_up.weight");
    reveal_strlit(".ffn_up.weight");
    reveal_strlit("self_attn.q_proj.weight");
    assert("mlp.up_proj.weight"@.len() != "self_attn.q_proj.weight"@.len());
    reveal_strlit("self_attn.k_proj.weight");
    assert("mlp.up_proj.weight"@.len() != "self_attn.k_proj.weight"@.len());
    reveal_strlit("self_attn.v_proj.weight");
    assert("mlp.up_proj.weight"@.len() != "self_attn.v_proj.weight"@.len());
    reveal_strlit("self_attn.o_proj.weight");
    assert("mlp.up_proj.weight"@.len() != "self_attn.o_proj.weight"@.len());
    reveal_strlit("self_attn.q_proj.bias");
    assert("mlp.up_proj.weight"@.len() != "self_attn.q_proj.bias"@.len());
    reveal_strlit("self_attn.k_proj.bias");
    assert("mlp.up_proj.weight"@.len() != "self_attn.k_proj.bias"@.len());
    reveal_strlit("self_attn.v_proj.bias");
    assert("mlp.up_proj.weight"@.len() != "self_attn.v_proj.bias"@.len());
    reveal_strlit("self_attn.o_proj.bias");
    assert("mlp.up_proj.weight"@.len() != "self_attn.o_proj.bias"@.len());
    reveal_strlit("mlp.gate_proj.weight");
    assert("mlp.up_proj.weight"@.len() != "mlp.gate_proj.weight"@.len());
    assert(gguf_suffix_spec("mlp.up_proj.weight"@) == Some("ffn_up.weight"@));
    assert(".mlp.up_proj.weight"@ =~= "."@ + "mlp.up_proj.weight"@);
    assert(".ffn_up.weight"@ =~= "."@ + "ffn_up.weight"@);
    lemma_layer_part(n, "mlp.up_proj.weight"@, ".mlp.up_proj.weight"@, "ffn_up.weight"@, ".ffn_up.weight"@);
}

/// `mlp.down_proj.weight` becomes `ffn_down.weight`.
proof fn lemma_part_mlp_down_proj_weight(n: Seq<char>)
    requires
        forall|i: int| 0 <= i < n.len() ==> n[i] != '.',
    ensures
        hf_to_gguf_name_spec("model.layers."@ + n + ".mlp.down_proj.weight"@) == Some("blk."@ + n + ".ffn_down.weight"@),
        hf_to_gguf_name_spec("layers."@ + n + ".mlp.down_proj.weight"@) == Some("blk."@ + n + ".ffn_down.weight"@),
{
    reveal_strlit(".");
    reveal_strlit("mlp.down_proj.weight");
    reveal_strlit(".mlp.down_proj.weight");
    reveal_strlit("ffn_down.weight");
    reveal_strlit(".ffn_down.weight");
    reveal_strlit("self_attn.q_proj.weight");
    assert("mlp.down_proj.weight"@.len() != "self_attn.q_proj.weight"@.len());
    reveal_strlit("self_attn.k_proj.weight");
    assert("mlp.down_proj.weight"@.len() != "self_attn.k_proj.weight"@.len());
    reveal_strlit("self_attn.v_proj.weight");
    assert("mlp.down_proj.weight"@.len() != "self_attn.v_proj.weight"@.len());
    reveal_strlit("self_attn.o_proj.weight");
    assert("mlp.down_proj.weight"@.len() != "self_attn.o_proj.weight"@.len());
    reveal_strlit("self_attn.q_proj.bias");
    assert("mlp.down_proj.weight"@.len() != "self_attn.q_proj.bias"@.len());
    reveal_strlit("self_attn.k_proj.bias");
    assert("mlp.down_proj.weight"@.len() != "self_attn.k_proj.bias"@.len());
    reveal_strlit("self_attn.v_proj.bias");
    assert("mlp.down_proj.weight"@.len() != "self_attn.v_proj.bias"@.len());
    reveal_strlit("self_attn.o_proj.bias");
    assert("mlp.down_proj.weight"@.len() != "self_attn.o_proj.bias"@.len());
    reveal_strlit("mlp.gate_proj.weight");
    assert("mlp.down_proj.weight"@[4] != "mlp.gate_proj.weight"@[4]);
    reveal_strlit("mlp.up_proj.weight");
    assert("mlp.down_proj.weight"@.len() != "mlp.up_proj.weight"@.len());
    assert(gguf_suffix_spec("mlp.down_proj.weight"@) == Some("ffn_down.weight"@));
    assert(".mlp.down_proj.weight"@ =~= "."@ + "mlp.down_proj.weight"@);
    assert(".ffn_down.weight"@ =~= "."@ + "ffn_down.weight"@);
    lemma_layer_part(n, "mlp.down_proj.weight"@, ".mlp.down_proj.weight"@, "ffn_down.weight"@, ".ffn_down.weight"@);
}

/// `input_layernorm.weight` becomes `attn_norm.weight`.
proof fn lemma_part_input_layernorm_weight(n: Seq<char>)
    requires
        forall|i: int| 0 <= i < n.len() ==> n[i] != '.',
    ensures
        hf_to_gguf_name_spec("model.layers."@ + n + ".input_layernorm.weight"@) == Some("blk."@ + n + ".attn_norm.weight"@),
        hf_to_gguf_name_spec("layers."@ + n + ".input_layernorm.weight"@) == Some("blk."@ + n + ".attn_norm.weight"@),
{
    reveal_strlit(".");
    reveal_strlit("input_layernorm.weight");
    reveal_strlit(".input_layernorm.weight");
    reveal_strlit("attn_norm.weight");
    reveal_strlit(".attn_norm.weight");
    reveal_strlit("self_attn.q_proj.weight");
    assert("input_layernorm.weight"@.len() != "self_attn.q_proj.weight"@.len());
    reveal_strlit("self_attn.k_proj.weight");
    assert("input_layernorm.weight"@.len() != "self_attn.k_proj.weight"@.len());
    reveal_strlit("self_attn.v_proj.weight");
    assert("input_layernorm.weight"@.len() != "self_attn.v_proj.weight"@.len());
    reveal_strlit("self_attn.o_proj.weight");
    assert("input_layernorm.weight"@.len() != "self_attn.o_proj.weight"@.len());
    reveal_strlit("self_attn.q_proj.bias");
    assert("input_layernorm.weight"@.len() != "self_attn.q_proj.bias"@.len());
    reveal_strlit("self_attn.k_proj.bias");
    assert("input_layernorm.weight"@.len() != "self_attn.k_proj.bias"@.len());
    reveal_strlit("self_attn.v_proj.bias");
    assert("input_layernorm.weight"@.len() != "self_attn.v_proj.bias"@.len());
    reveal_strlit("self_attn.o_proj.bias");
    assert("input_layernorm.weight"@.len() != "self_attn.o_proj.bias"@.len());
    reveal_strlit("mlp.gate_proj.weight");
    assert("input_layernorm.weight"@.len() != "mlp.gate_proj.weight"@.len());
    reveal_strlit("mlp.up_proj.weight");
    assert("input_layernorm.weight"@.len() != "mlp.up_proj.weight"@.len());
    reveal_strlit("mlp.down_proj.weight");
    assert("input_layernorm.weight"@.len() != "mlp.down_proj.weight"@.len());
    assert(gguf_suffix_spec("input_layernorm.weight"@) == Some("attn_norm.weight"@));
    assert(".input_layernorm.weight"@ =~= "."@ + "input_layernorm.weight"@);
    assert(".attn_norm.weight"@ =~= "."@ + "attn_norm.weight"@);
    lemma_layer_part(n, "input_layernorm.weight"@, ".input_layernorm.weight"@, "attn_norm.weight"@, ".attn_norm.weight"@);
}

/// `post_attention_layernorm.weight` becomes `ffn_norm.weight`.
proof fn lemma_part_post_attention_layernorm_weight(n: Seq<char>)
    requires
        forall|i: int| 0 <= i < n.len() ==> n[i] != '.',
    ensures
        hf_to_gguf_name_spec("model.layers."@ + n + ".post_attention_layernorm.weight"@) == Some("blk."@ + n + ".ffn_norm.weight"@),
        hf_to_gguf_name_spec("layers."@ + n + ".post_attention_layernorm.weight"@) == Some("blk."@ + n + ".ffn_norm.weight"@),
{
    reveal_strlit(".");
    reveal_strlit("post_attention_layernorm.weight");
    reveal_strlit(".post_attention_layernorm.weight");
    reveal_strlit("ffn_norm.weight");
    reveal_strlit(".ffn_norm.weight");
    reveal_strlit("self_attn.q_proj.weight");
    assert("post_attention_layernorm.weight"@.len() != "self_attn.q_proj.weight"@.len());
    reveal_strlit("self_attn.k_proj.weight");
    assert("post_attention_layernorm.weight"@.len() != "self_attn.k_proj.weight"@.len());
    reveal_strlit("self_attn.v_proj.weight");
    assert("post_attention_layernorm.weight"@.len() != "self_attn.v_proj.weight"@.len());
    reveal_strlit("self_attn.o_proj.weight");
    assert("post_attention_layernorm.weight"@.len() != "self_attn.o_proj.weight"@.len());
    reveal_strlit("self_attn.q_proj.bias");
    assert("post_attention_layernorm.weight"@.len() != "self_attn.q_proj.bias"@.len());
    reveal_strlit("self_attn.k_proj.bias");
    assert("post_attention_layernorm.weight"@.len() != "self_attn.k_proj.bias"@.len());
    reveal_strlit("self_attn.v_proj.bias");
    assert("post_attention_layernorm.weight"@.len() != "self_attn.v_proj.bias"@.len());
    reveal_strlit("self_attn.o_proj.bias");
    assert("post_attention_layernorm.weight"@.len() != "self_attn.o_proj.bias"@.len());
    reveal_strlit("mlp.gate_proj.weight");
    assert("post_attention_layernorm.weight"@.len() != "mlp.gate_proj.weight"@.len());
    reveal_strlit("mlp.up_proj.weight");
    assert("post_attention_layernorm.weight"@.len() != "mlp.up_proj.weight"@.len());
    reveal_strlit("mlp.down_proj.weight");
    assert("post_attention_layernorm.weight"@.len() != "mlp.down_proj.weight"@.len());
    reveal_strlit("input_layernorm.weight");
    assert("post_attention_layernorm.weight"@.len() != "input_layernorm.weight"@.len());
    assert(gguf_suffix_spec("post_attention_layernorm.weight"@) == Some("ffn_norm.weight"@));
    assert(".post_attention_layernorm.weight"@ =~= "."@ + "post_attention_layernorm.weight"@);
    assert(".ffn_norm.weight"@ =~= "."@ + "ffn_norm.weight"@);
    lemma_layer_part(n, "post_attention_layernorm.weight"@, ".post_attention_layernorm.weight"@, "ffn_norm.weight"@, ".ffn_norm.weight"@);
}

/// One mapped part, written with its leading dot.
proof fn lemma_layer_part(n: Seq<char>, part: Seq<char>, dot_part: Seq<char>, g: Seq<char>, dot_g: Seq<char>)
    requires
        forall|i: int| 0 <= i < n.len() ==> n[i] != '.',
        gguf_suffix_spec(part) == Some(g),
        dot_part == "."@ + part,
        dot_g == "."@ + g,
    ensures
        hf_to_gguf_name_spec("model.layers."@ + n + dot_part) == Some("blk."@ + n + dot_g),
        hf_to_gguf_name_spec("layers."@ + n + dot_part) == Some("blk."@ + n + dot_g),
{
    lemma_layer_tensor_name(n, part);
    assert("model.layers."@ + n + dot_part =~= "model.layers."@ + n + "."@ + part);
    assert("layers."@ + n + dot_part =~= "layers."@ + n + "."@ + part);
    assert("blk."@ + n + dot_g =~= "blk."@ + n + "."@ + g);
}

/// A per-layer tensor name maps by its part: with a layer `n` without `.`,
/// `model.layers.<n>.<part>` and `layers.<n>.<part>` become
/// `blk.<n>.<gguf part>` where the part is mapped, and nothing otherwise.
proof fn lemma_layer_tensor_name(n: Seq<char>, part: Seq<char>)
    requires
        forall|i: int| 0 <= i < n.len() ==> n[i] != '.',
    ensures
        hf_to_gguf_name_spec("model.layers."@ + n + "."@ + part) == match gguf_suffix_spec(part) {
            Some(g) => Some("blk."@ + n + "."@ + g),
            None => None,
        },
        hf_to_gguf_name_spec("layers."@ + n + "."@ + part) == match gguf_suffix_spec(part) {
            Some(g) => Some("blk."@ + n + "."@ + g),
            None => None,
        },
{
    reveal_strlit("model.layers.");
    reveal_strlit("model.");
    reveal_strlit("layers.");
    reveal_strlit(".");
    reveal_strlit("embed_tokens.weight");
    reveal_strlit("norm.weight");
    reveal_strlit("lm_head.weight");
    let stripped = "layers."@ + n + "."@ + part;
    let full = "model.layers."@ + n + "."@ + part;
    assert(full.subrange(0, 6) =~= "model."@);
    assert(full.subrange(6, full.len() as int) =~= stripped);
    assert(strip_model_prefix(full) == stripped);
    assert(stripped[0] != "model."@[0]);
    assert(strip_model_prefix(stripped) == stripped);
    assert(full[0] != "lm_head.weight"@[0]);
    assert(stripped[1] != "lm_head.weight"@[1]);
    assert(stripped[0] != "embed_tokens.weight"@[0]);
    assert(stripped[0] != "norm.weight"@[0]);
    assert(stripped.subrange(0, 7) =~= "layers."@);
    let rest = stripped.subrange(7, stripped.len() as int);
    assert(rest =~= n + "."@ + part);
    assert(is_first_index(rest, '.', n.len() as int));
    let d = choose|d: int| is_first_index(rest, '.', d);
    lemma_first_index_unique(rest, '.', d, n.len() as int);
    assert(rest.subrange(0, d) =~= n);
    assert(rest.subrange(d + 1, rest.len() as int) =~= part);
}

/// The GGUF suffix of a per-layer tensor suffix.
fn gguf_suffix(suffix: &str) -> (r: Option<&'static str>)
    ensures
        r matches Some(g) ==> gguf_suffix_spec(suffix@) == Some(g@),
        r is None ==> gguf_suffix_spec(suffix@) is None,
{
    if str_eq(suffix, "self_attn.q_proj.weight") {
        Some("attn_q.weight")
    } else if str_eq(suffix, "self_attn.k_proj.weight") {
        Some("attn_k.weight")
    } else if str_eq(suffix, "self_attn.v_proj.weight") {
        Some("attn_v.weight")
    } else if str_eq(suffix, "self_attn.o_proj.weight") {
        Some("attn_output.weight")
    } else if str_eq(suffix, "self_attn.q_proj.bias") {
        Some("attn_q.bias")
    } else if str_eq(suffix, "self_attn.k_proj.bias") {
        Some("attn_k.bias")
    } else if str_eq(suffix, "self_attn.v_proj.bias") {
        Some("attn_v.bias")
    } else if str_eq(suffix, "self_attn.o_proj.bias") {
        Some("attn_output.bias")
    } else if str_eq(suffix, "mlp.gate_proj.weight") {
        Some("ffn_gate.weight")
    } else if str_eq(suffix, "mlp.up_proj.weight") {
        Some("ffn_up.weight")
    } else if str_eq(suffix, "mlp.down_proj.weight") {
        Some("ffn_down.weight")
    } else if str_eq(suffix, "input_layernorm.weight") {
        Some("attn_norm.weight")
    } else if str_eq(suffix, "post_attention_layernorm.weight") {
        Some("ffn_norm.weight")
    } else {
        None
    }
}

/// The standard GGUF name of a HuggingFace tensor name, or `None` where the
/// name is not mapped.
pub fn hf_to_ggf_name(hf_name: &str) -> (r: Option<String>)
    ensures
        r matches Some(g) ==> hf_to_gguf_name_spec(hf_name@) == Some(g@),
        r is None ==> hf_to_gguf_name_spec(hf_name@) is None,
{
    let prefix = "model.";
    let name: &str = if has_prefix(hf_name, prefix) {
        let n = hf_name.unicode_len();
        let k = prefix.unicode_len();
        hf_name.substring_char(k, n)
    } else {
        hf_name
    };
    assert(name@ == strip_model_prefix(hf_name@));
    if str_eq(name, "embed_tokens.weight") {
        return Some(owned("token_embd.weight"));
    }
    if str_eq(name, "norm.weight") {
        return Some(owned("output_norm.weight"));
    }
    if str_eq(hf_name, "lm_head.weight") {
        return Some(owned("output.weight"));
    }
    let layers = "layers.";
    if !has_prefix(name, layers) {
        return None;
    }
    let rest = name.substring_char(layers.unicode_len(), name.unicode_len());
    let dot = match find_char(rest, '.') {
        Some(d) => d,
        None => {
            return None;
        },
    };
    proof {
        let d = choose|d: int| is_first_index(rest@, '.', d);
        lemma_first_index_unique(rest@, '.', d, dot as int);
    }
    let layer_num = rest.substring_char(0, dot);
    let suffix = rest.substring_char(dot + 1, rest.unicode_len());
    let gguf = match gguf_suffix(suffix) {
        Some(g) => g,
        None => {
            return None;
        },
    };
    let mut out = owned("blk.");
    out.append(layer_num);
    out.append(".");
    out.append(gguf);
    Some(out)
}

} // verus!
