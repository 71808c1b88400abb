//! GGUF metadata values.

use crate::hf_config::{num_key_value_heads_spec, rope_theta_spec, HFConfig};
use crate::text::{concat2, owned, str_eq};
use crate::tokenizer::TokenizerInfo;
use vstd::prelude::*;
use vstd::string::*;
use vstd::utf8::encode_utf8;

verus! {

/// A metadata value of a GGUF file.
///
/// A 32-bit float is held by its IEEE-754 bit pattern.
pub enum GGUFValue {
    U32(u32),
    U64(u64),
    F32(u32),
    String(String),
    ArrayString(Vec<String>),
    ArrayI32(Vec<i32>),
}

/// A metadata value with its strings taken as character sequences.
pub enum GGUFValueView {
    U32(u32),
    U64(u64),
    F32(u32),
    String(Seq<char>),
    ArrayString(Seq<Seq<char>>),
    ArrayI32(Seq<i32>),
}

/// The characters of each string.
pub open spec fn strings_view(v: Seq<String>) -> Seq<Seq<char>> {
    v.map_values(|s: String| s@)
}

impl View for GGUFValue {
    type V = GGUFValueView;

    open spec fn view(&self) -> GGUFValueView {
        match self {
            GGUFValue::U32(v) => GGUFValueView::U32(*v),
            GGUFValue::U64(v) => GGUFValueView::U64(*v),
            GGUFValue::F32(v) => GGUFValueView::F32(*v),
            GGUFValue::String(s) => GGUFValueView::String(s@),
            GGUFValue::ArrayString(v) => GGUFValueView::ArrayString(strings_view(v@)),
            GGUFValue::ArrayI32(v) => GGUFValueView::ArrayI32(v@),
        }
    }
}

/// A key/value list with keys and values taken by their views.
pub open spec fn kvs_view(kvs: Seq<(String, GGUFValue)>) -> Seq<(Seq<char>, GGUFValueView)> {
    kvs.map_values(|kv: (String, GGUFValue)| (kv.0@, kv.1@))
}

/// The character of the decimal digit `d`.
pub open spec fn digit_char(d: nat) -> char {
    (d + 48) as char
}

/// The decimal form of `n`, without leading zeros.
pub open spec fn decimal(n: nat) -> Seq<char>
    decreases n,
{
    if n < 10 {
        seq![digit_char(n)]
    } else {
        decimal(n / 10).push(digit_char(n % 10))
    }
}

/// The one-character string of the decimal digit `d`.
fn digit_str(d: u64) -> (r: &'static str)
    requires
        d < 10,
    ensures
        r@ == seq![digit_char(d as nat)],
{
    proof {
        reveal_strlit("0");
        reveal_strlit("1");
        reveal_strlit("2");
        reveal_strlit("3");
        reveal_strlit("4");
        reveal_strlit("5");
        reveal_strlit("6");
        reveal_strlit("7");
        reveal_strlit("8");
        reveal_strlit("9");
    }
    let r = match d {
        0 => "0",
        1 => "1",
        2 => "2",
        3 => "3",
        4 => "4",
        5 => "5",
        6 => "6",
        7 => "7",
        8 => "8",
        _ => "9",
    };
    assert(r@ =~= seq![digit_char(d as nat)]);
    r
}

/// The decimal form of `n`.
pub fn decimal_string(n: u64) -> (r: String)
    ensures
        r@ == decimal(n as nat),
    decreases n,
{
    if n < 10 {
        owned(digit_str(n))
    } else {
        let mut s = decimal_string(n / 10);
        s.append(digit_str(n % 10));
        s
    }
}

/// How a metadata value is shown when a model is inspected, where
/// `float_text` is the written form of the float of an `F32` value: numbers
/// in decimal; a string of more than 30 bytes by its first 10 characters,
/// `... [`, its byte length and ` chars]`; an array by its length and the
/// kind of its elements.
pub open spec fn value_text(v: GGUFValueView, float_text: Seq<char>) -> Seq<char> {
    match v {
        GGUFValueView::U32(x) => decimal(x as nat),
        GGUFValueView::U64(x) => decimal(x as nat),
        GGUFValueView::F32(_) => float_text,
        GGUFValueView::String(s) => {
            let n = encode_utf8(s).len();
            if n > 30 {
                s.subrange(0, if s.len() < 10 { s.len() as int } else { 10 }) + "... ["@ + decimal(n)
                    + " chars]"@
            } else {
                s
            }
        },
        GGUFValueView::ArrayString(items) => "["@ + decimal(items.len()) + " strings]"@,
        GGUFValueView::ArrayI32(items) => "["@ + decimal(items.len()) + " i32s]"@,
    }
}

impl GGUFValue {
    /// How this value is shown when a model is inspected; `float_text` is the
    /// written form of the float of an `F32` value.
    pub fn display_text(&self, float_text: &str) -> (r: String)
        ensures
            r@ == value_text(self@, float_text@),
    {
        match self {
            GGUFValue::U32(v) => decimal_string(*v as u64),
            GGUFValue::U64(v) => decimal_string(*v),
            GGUFValue::F32(_) => owned(float_text),
            GGUFValue::String(s) => {
                let n = s.as_str().as_bytes().len();
                assert(n == encode_utf8(s@).len());
                if n > 30 {
                    let k = s.as_str().unicode_len();
                    let head = s.as_str().substring_char(0, if k < 10 { k } else { 10 });
                    let mut r = concat2(head, "... [");
                    r.append(decimal_string(n as u64).as_str());
                    r.append(" chars]");
                    r
                } else {
                    s.clone()
                }
            },
            GGUFValue::ArrayString(v) => {
                let mut r = concat2("[", decimal_string(v.len() as u64).as_str());
                r.append(" strings]");
                r
            },
            GGUFValue::ArrayI32(v) => {
                let mut r = concat2("[", decimal_string(v.len() as u64).as_str());
                r.append(" i32s]");
                r
            },
        }
    }
}

/// The quantization format version stored in the metadata.
pub const GGUF_QUANTIZATION_VERSION: u32 = 2;

/// The GGUF architecture name of a HuggingFace model type: `llama` and
/// `mistral` share `llama`; any other type keeps its name.
pub open spec fn arch_name(model_type: Seq<char>) -> Seq<char> {
    if model_type == "qwen2"@ {
        "qwen2"@
    } else if model_type == "llama"@ || model_type == "mistral"@ {
        "llama"@
    } else {
        model_type
    }
}

/// The architecture name of a model type: `qwen2` stays `qwen2`, `llama`
/// and `mistral` are both `llama`, and any other type keeps its own name.
pub proof fn lemma_arch_names(t: Seq<char>)
    ensures
        t == "qwen2"@ ==> arch_name(t) == "qwen2"@,
        t == "llama"@ ==> arch_name(t) == "llama"@,
        t == "mistral"@ ==> arch_name(t) == "llama"@,
        t != "qwen2"@ && t != "llama"@ && t != "mistral"@ ==> arch_name(t) == t,
{
    reveal_strlit("qwen2");
    reveal_strlit("llama");
    reveal_strlit("mistral");
    assert("llama"@[0] != "qwen2"@[0]);
    assert("mistral"@.len() != "qwen2"@.len());
}

/// The architecture metadata of a model, keyed under its architecture name.
//Reference: https://github.com/ggml-org/ggml/blob/master/docs/gguf.md#standardized-key-value-pairs
pub open spec fn architecture_kvs_spec(c: HFConfig) -> Seq<(Seq<char>, GGUFValueView)> {
    let arch = arch_name(c.model_type@);
    seq![
        ("general.architecture"@, GGUFValueView::String(arch)),
        ("general.quantization_version"@, GGUFValueView::U32(GGUF_QUANTIZATION_VERSION)),
        ("general.name"@, GGUFValueView::String(c.model_name@)),
        (arch + ".context_length"@, GGUFValueView::U32(c.max_position_embeddings)),
        (arch + ".embedding_length"@, GGUFValueView::U32(c.hidden_size)),
        (arch + ".block_count"@, GGUFValueView::U32(c.num_hidden_layers)),
        (arch + ".feed_forward_length"@, GGUFValueView::U32(c.intermediate_size)),
        (arch + ".attention.head_count"@, GGUFValueView::U32(c.num_attention_heads)),
        (arch + ".attention.head_count_kv"@, GGUFValueView::U32(num_key_value_heads_spec(c))),
        (arch + ".attention.layer_norm_rms_epsilon"@, GGUFValueView::F32(c.rms_norm_eps)),
        (arch + ".rope.dimension_count"@, GGUFValueView::U32(
            (c.hidden_size / c.num_attention_heads) as u32,
        )),
        (arch + ".rope.freq_base"@, GGUFValueView::F32(rope_theta_spec(c))),
        (arch + ".vocab_size"@, GGUFValueView::U32(c.vocab_size)),
    ]
}

/// One pair of a key and an unsigned value.
fn kv_u32(key: &str, suffix: &str, v: u32) -> (r: (String, GGUFValue))
    ensures
        r.0@ == key@ + suffix@,
        r.1@ == GGUFValueView::U32(v),
{
    (concat2(key, suffix), GGUFValue::U32(v))
}

/// The architecture metadata of a model.
pub fn architecture_kvs(config: &HFConfig) -> (r: Vec<(String, GGUFValue)>)
    requires
        config.num_attention_heads != 0,
    ensures
        kvs_view(r@) == architecture_kvs_spec(*config),
{
    let mt = config.model_type.as_str();
    let arch: &str = if str_eq(mt, "qwen2") {
        "qwen2"
    } else if str_eq(mt, "llama") || str_eq(mt, "mistral") {
        "llama"
    } else {
        mt
    };
    let mut kvs: Vec<(String, GGUFValue)> = Vec::new();
    kvs.push((owned("general.architecture"), GGUFValue::String(owned(arch))));
    kvs.push((owned("general.quantization_version"), GGUFValue::U32(GGUF_QUANTIZATION_VERSION)));
    kvs.push((owned("general.name"), GGUFValue::String(config.model_name.clone())));
    kvs.push(kv_u32(arch, ".context_length", config.max_position_embeddings));
    kvs.push(kv_u32(arch, ".embedding_length", config.hidden_size));
    kvs.push(kv_u32(arch, ".block_count", config.num_hidden_layers));
    kvs.push(kv_u32(arch, ".feed_forward_length", config.intermediate_size));
    kvs.push(kv_u32(arch, ".attention.head_count", config.num_attention_heads));
    kvs.push(kv_u32(arch, ".attention.head_count_kv", config.num_key_value_heads()));
    kvs.push(
        (
            concat2(arch, ".attention.layer_norm_rms_epsilon"),
            GGUFValue::F32(config.rms_norm_eps),
        ),
    );
    kvs.push(
        kv_u32(arch, ".rope.dimension_count", config.hidden_size / config.num_attention_heads),
    );
    kvs.push((concat2(arch, ".rope.freq_base"), GGUFValue::F32(config.rope_theta())));
    kvs.push(kv_u32(arch, ".vocab_size", config.vocab_size));
    assert(kvs_view(kvs@) =~= architecture_kvs_spec(*config));
    kvs
}

/// The key `key` is paired with the value `v` somewhere in `kvs`.
pub open spec fn has_kv(kvs: Seq<(Seq<char>, GGUFValueView)>, key: Seq<char>, v: GGUFValueView) -> bool {
    exists|i: int| 0 <= i < kvs.len() && #[trigger] kvs[i] == (key, v)
}

/// The key `key` occurs in `kvs`.
pub open spec fn has_key(kvs: Seq<(Seq<char>, GGUFValueView)>, key: Seq<char>) -> bool {
    exists|i: int| 0 <= i < kvs.len() && #[trigger] kvs[i].0 == key
}

/// No key occurs twice in `kvs`.
pub open spec fn keys_distinct(kvs: Seq<(Seq<char>, GGUFValueView)>) -> bool {
    forall|i: int, j: int| 0 <= i < j < kvs.len() ==> #[trigger] kvs[i].0 != #[trigger] kvs[j].0
}

/// A key that ends in `x` differs from a literal key `g` that does not end
/// in `x` (seen at the place where `x` would start, or at the last character).
proof fn lemma_concat_ne_literal(a: Seq<char>, x: Seq<char>, g: Seq<char>)
    requires
        x.len() > g.len() || (x.len() > 0 && (g[g.len() - x.len()] != x[0] || g.last() != x.last())),
    ensures
        a + x != g,
{
    if a + x == g {
        assert((a + x)[a.len() as int] == x[0]);
        assert((a + x).last() == x.last());
    }
}

/// Two keys with the same architecture prefix and different endings differ.
proof fn lemma_concat_ne_concat(a: Seq<char>, x: Seq<char>, y: Seq<char>)
    requires
        x.len() != y.len() || (x.len() > 1 && y.len() > 1 && x[1] != y[1]),
    ensures
        a + x != a + y,
{
    if a + x == a + y {
        assert((a + x).len() == (a + y).len());
        assert((a + x)[a.len() + 1int] == x[1]);
        assert((a + y)[a.len() + 1int] == y[1]);
    }
}

/// Each architecture key holds its config field: the architecture name, the
/// quantization version 2, the model name, the context length
/// (`max_position_embeddings`), the embedding length (`hidden_size`), the
/// block count (`num_hidden_layers`), the feed-forward length
/// (`intermediate_size`), the head count (`num_attention_heads`), the
/// key/value head count (`num_key_value_heads`, else the head count), the
/// RMS epsilon (`rms_norm_eps`), the RoPE dimension count (`hidden_size`
/// over the head count), the RoPE base (`rope_theta`, else 10000.0) and the
/// vocabulary size (`vocab_size`); and no key occurs twice.
pub proof fn lemma_architecture_kvs_by_key(c: HFConfig)
    ensures
        keys_distinct(architecture_kvs_spec(c)),
        has_kv(architecture_kvs_spec(c), "general.architecture"@, GGUFValueView::String(arch_name(c.model_type@))),
        has_kv(architecture_kvs_spec(c), "general.quantization_version"@, GGUFValueView::U32(2)),
        has_kv(architecture_kvs_spec(c), "general.name"@, GGUFValueView::String(c.model_name@)),
        has_kv(architecture_kvs_spec(c), arch_name(c.model_type@) + ".context_length"@, GGUFValueView::U32(c.max_position_embeddings)),
        has_kv(architecture_kvs_spec(c), arch_name(c.model_type@) + ".embedding_length"@, GGUFValueView::U32(c.hidden_size)),
        has_kv(architecture_kvs_spec(c), arch_name(c.model_type@) + ".block_count"@, GGUFValueView::U32(c.num_hidden_layers)),
        has_kv(architecture_kvs_spec(c), arch_name(c.model_type@) + ".feed_forward_length"@, GGUFValueView::U32(c.intermediate_size)),
        has_kv(architecture_kvs_spec(c), arch_name(c.model_type@) + ".attention.head_count"@, GGUFValueView::U32(c.num_attention_heads)),
        has_kv(architecture_kvs_spec(c), arch_name(c.model_type@) + ".attention.head_count_kv"@, GGUFValueView::U32(
            match c.num_key_value_heads {
                Some(k) => k,
                None => c.num_attention_heads,
            },
        )),
        has_kv(architecture_kvs_spec(c), arch_name(c.model_type@) + ".attention.layer_norm_rms_epsilon"@, GGUFValueView::F32(c.rms_norm_eps)),
        has_kv(architecture_kvs_spec(c), arch_name(c.model_type@) + ".rope.dimension_count"@, GGUFValueView::U32((c.hidden_size / c.num_attention_heads) as u32)),
        has_kv(architecture_kvs_spec(c), arch_name(c.model_type@) + ".rope.freq_base"@, GGUFValueView::F32(
            match c.rope_theta {
                Some(t) => t,
                None => 0x461C_4000,
            },
        )),
        has_kv(architecture_kvs_spec(c), arch_name(c.model_type@) + ".vocab_size"@, GGUFValueView::U32(c.vocab_size)),
{
    let a = arch_name(c.model_type@);
    let kvs = architecture_kvs_spec(c);
    reveal_strlit("general.architecture");
    reveal_strlit("general.quantization_version");
    reveal_strlit("general.name");
    reveal_strlit(".context_length");
    reveal_strlit(".embedding_length");
    reveal_strlit(".block_count");
    reveal_strlit(".feed_forward_length");
    reveal_strlit(".attention.head_count");
    reveal_strlit(".attention.head_count_kv");
    reveal_strlit(".attention.layer_norm_rms_epsilon");
    reveal_strlit(".rope.dimension_count");
    reveal_strlit(".rope.freq_base");
    reveal_strlit(".vocab_size");
    let keys = seq!["general.architecture"@, "general.quantization_version"@, "general.name"@, a + ".context_length"@, a + ".embedding_length"@, a + ".block_count"@, a + ".feed_forward_length"@, a + ".attention.head_count"@, a + ".attention.head_count_kv"@, a + ".attention.layer_norm_rms_epsilon"@, a + ".rope.dimension_count"@, a + ".rope.freq_base"@, a + ".vocab_size"@];
    assert("general.architecture"@.len() != "general.quantization_version"@.len());
    assert("general.architecture"@.len() != "general.name"@.len());
    lemma_concat_ne_literal(a, ".context_length"@, "general.architecture"@);
    lemma_concat_ne_literal(a, ".embedding_length"@, "general.architecture"@);
    lemma_concat_ne_literal(a, ".block_count"@, "general.architecture"@);
    lemma_concat_ne_literal(a, ".feed_forward_length"@, "general.architecture"@);
    lemma_concat_ne_literal(a, ".attention.head_count"@, "general.architecture"@);
    lemma_concat_ne_literal(a, ".attention.head_count_kv"@, "general.architecture"@);
    lemma_concat_ne_literal(a, ".attention.layer_norm_rms_epsilon"@, "general.architecture"@);
    lemma_concat_ne_literal(a, ".rope.dimension_count"@, "general.architecture"@);
    lemma_concat_ne_literal(a, ".rope.freq_base"@, "general.architecture"@);
    lemma_concat_ne_literal(a, ".vocab_size"@, "general.architecture"@);
    assert("general.quantization_version"@.len() != "general.name"@.len());
    lemma_concat_ne_literal(a, ".context_length"@, "general.quantization_version"@);
    lemma_concat_ne_literal(a, ".embedding_length"@, "general.quantization_version"@);
    lemma_concat_ne_literal(a, ".block_count"@, "general.quantization_version"@);
    lemma_concat_ne_literal(a, ".feed_forward_length"@, "general.quantization_version"@);
    lemma_concat_ne_literal(a, ".attention.head_count"@, "general.quantization_version"@);
    lemma_concat_ne_literal(a, ".attention.head_count_kv"@, "general.quantization_version"@);
    lemma_concat_ne_literal(a, ".attention.layer_norm_rms_epsilon"@, "general.quantization_version"@);
    lemma_concat_ne_literal(a, ".rope.dimension_count"@, "general.quantization_version"@);
    lemma_concat_ne_literal(a, ".rope.freq_base"@, "general.quantization_version"@);
    lemma_concat_ne_literal(a, ".vocab_size"@, "general.quantization_version"@);
    lemma_concat_ne_literal(a, ".context_length"@, "general.name"@);
    lemma_concat_ne_literal(a, ".embedding_length"@, "general.name"@);
    lemma_concat_ne_literal(a, ".block_count"@, "general.name"@);
    lemma_concat_ne_literal(a, ".feed_forward_length"@, "general.name"@);
    lemma_concat_ne_literal(a, ".attention.head_count"@, "general.name"@);
    lemma_concat_ne_literal(a, ".attention.head_count_kv"@, "general.name"@);
    lemma_concat_ne_literal(a, ".attention.layer_norm_rms_epsilon"@, "general.name"@);
    lemma_concat_ne_literal(a, ".rope.dimension_count"@, "general.name"@);
    lemma_concat_ne_literal(a, ".rope.freq_base"@, "general.name"@);
    lemma_concat_ne_literal(a, ".vocab_size"@, "general.name"@);
    lemma_concat_ne_concat(a, ".context_length"@, ".embedding_length"@);
    lemma_concat_ne_concat(a, ".context_length"@, ".block_count"@);
    lemma_concat_ne_concat(a, ".context_length"@, ".feed_forward_length"@);
    lemma_concat_ne_concat(a, ".context_length"@, ".attention.head_count"@);
    lemma_concat_ne_concat(a, ".context_length"@, ".attention.head_count_kv"@);
    lemma_concat_ne_concat(a, ".context_length"@, ".attention.layer_norm_rms_epsilon"@);
    lemma_concat_ne_concat(a, ".context_length"@, ".rope.dimension_count"@);
    lemma_concat_ne_concat(a, ".context_length"@, ".rope.freq_base"@);
    lemma_concat_ne_concat(a, ".context_length"@, ".vocab_size"@);
    lemma_concat_ne_concat(a, ".embedding_length"@, ".block_count"@);
    lemma_concat_ne_concat(a, ".embedding_length"@, ".feed_forward_length"@);
    lemma_concat_ne_concat(a, ".embedding_length"@, ".attention.head_count"@);
    lemma_concat_ne_concat(a, ".embedding_length"@, ".attention.head_count_kv"@);
    lemma_concat_ne_concat(a, ".embedding_length"@, ".attention.layer_norm_rms_epsilon"@);
    lemma_concat_ne_concat(a, ".embedding_length"@, ".rope.dimension_count"@);
    lemma_concat_ne_concat(a, ".embedding_length"@, ".rope.freq_base"@);
    lemma_concat_ne_concat(a, ".embedding_length"@, ".vocab_size"@);
    lemma_concat_ne_concat(a, ".block_count"@, ".feed_forward_length"@);
    lemma_concat_ne_concat(a, ".block_count"@, ".attention.head_count"@);
    lemma_concat_ne_concat(a, ".block_count"@, ".attention.head_count_kv"@);
    lemma_concat_ne_concat(a, ".block_count"@, ".attention.layer_norm_rms_epsilon"@);
    lemma_concat_ne_concat(a, ".block_count"@, ".rope.dimension_count"@);
    lemma_concat_ne_concat(a, ".block_count"@, ".rope.freq_base"@);
    lemma_concat_ne_concat(a, ".block_count"@, ".vocab_size"@);
    lemma_concat_ne_concat(a, ".feed_forward_length"@, ".attention.head_count"@);
    lemma_concat_ne_concat(a, ".feed_forward_length"@, ".attention.head_count_kv"@);
    lemma_concat_ne_concat(a, ".feed_forward_length"@, ".attention.layer_norm_rms_epsilon"@);
    lemma_concat_ne_concat(a, ".feed_forward_length"@, ".rope.dimension_count"@);
    lemma_concat_ne_concat(a, ".feed_forward_length"@, ".rope.freq_base"@);
    lemma_concat_ne_concat(a, ".feed_forward_length"@, ".vocab_size"@);
    lemma_concat_ne_concat(a, ".attention.head_count"@, ".attention.head_count_kv"@);
    lemma_concat_ne_concat(a, ".attention.head_count"@, ".attention.layer_norm_rms_epsilon"@);
    lemma_concat_ne_concat(a, ".attention.head_count"@, ".rope.dimension_count"@);
    lemma_concat_ne_concat(a, ".attention.head_count"@, ".rope.freq_base"@);
    lemma_concat_ne_concat(a, ".attention.head_count"@, ".vocab_size"@);
    lemma_concat_ne_concat(a, ".attention.head_count_kv"@, ".attention.layer_norm_rms_epsilon"@);
    lemma_concat_ne_concat(a, ".attention.head_count_kv"@, ".rope.dimension_count"@);
    lemma_concat_ne_concat(a, ".attention.head_count_kv"@, ".rope.freq_base"@);
    lemma_concat_ne_concat(a, ".attention.head_count_kv"@, ".vocab_size"@);
    lemma_concat_ne_concat(a, ".attention.layer_norm_rms_epsilon"@, ".rope.dimension_count"@);
    lemma_concat_ne_concat(a, ".attention.layer_norm_rms_epsilon"@, ".rope.freq_base"@);
    lemma_concat_ne_concat(a, ".attention.layer_norm_rms_epsilon"@, ".vocab_size"@);
    lemma_concat_ne_concat(a, ".rope.dimension_count"@, ".rope.freq_base"@);
    lemma_concat_ne_concat(a, ".rope.dimension_count"@, ".vocab_size"@);
    lemma_concat_ne_concat(a, ".rope.freq_base"@, ".vocab_size"@);
    assert forall|i: int, j: int| 0 <= i < j < 13 implies keys[i] != keys[j] by {
        if i == 0 {
            if j == 1 {
                assert(keys[0] != keys[1]);
            } else if j == 2 {
                assert(keys[0] != keys[2]);
            } else if j == 3 {
                assert(keys[0] != keys[3]);
            } else if j == 4 {
                assert(keys[0] != keys[4]);
            } else if j == 5 {
                assert(keys[0] != keys[5]);
            } else if j == 6 {
                assert(keys[0] != keys[6]);
            } else if j == 7 {
                assert(keys[0] != keys[7]);
            } else if j == 8 {
                assert(keys[0] != keys[8]);
            } else if j == 9 {
                assert(keys[0] != keys[9]);
            } else if j == 10 {
                assert(keys[0] != keys[10]);
            } else if j == 11 {
                assert(keys[0] != keys[11]);
            } else if j == 12 {
                assert(keys[0] != keys[12]);
            }
        } else if i == 1 {
            if j == 2 {
                assert(keys[1] != keys[2]);
            } else if j == 3 {
                assert(keys[1] != keys[3]);
            } else if j == 4 {
                assert(keys[1] != keys[4]);
            } else if j == 5 {
                assert(keys[1] != keys[5]);
            } else if j == 6 {
                assert(keys[1] != keys[6]);
            } else if j == 7 {
                assert(keys[1] != keys[7]);
            } else if j == 8 {
                assert(keys[1] != keys[8]);
            } else if j == 9 {
                assert(keys[1] != keys[9]);
            } else if j == 10 {
                assert(keys[1] != keys[10]);
            } else if j == 11 {
                assert(keys[1] != keys[11]);
            } else if j == 12 {
                assert(keys[1] != keys[12]);
            }
        } else if i == 2 {
            if j == 3 {
                assert(keys[2] != keys[3]);
            } else if j == 4 {
                assert(keys[2] != keys[4]);
            } else if j == 5 {
                assert(keys[2] != keys[5]);
            } else if j == 6 {
                assert(keys[2] != keys[6]);
            } else if j == 7 {
                assert(keys[2] != keys[7]);
            } else if j == 8 {
                assert(keys[2] != keys[8]);
            } else if j == 9 {
                assert(keys[2] != keys[9]);
            } else if j == 10 {
                assert(keys[2] != keys[10]);
            } else if j == 11 {
                assert(keys[2] != keys[11]);
            } else if j == 12 {
                assert(keys[2] != keys[12]);
            }
        } else if i == 3 {
            if j == 4 {
                assert(keys[3] != keys[4]);
            } else if j == 5 {
                assert(keys[3] != keys[5]);
            } else if j == 6 {
                assert(keys[3] != keys[6]);
            } else if j == 7 {
                assert(keys[3] != keys[7]);
            } else if j == 8 {
                assert(keys[3] != keys[8]);
            } else if j == 9 {
                assert(keys[3] != keys[9]);
            } else if j == 10 {
                assert(keys[3] != keys[10]);
            } else if j == 11 {
                assert(keys[3] != keys[11]);
            } else if j == 12 {
                assert(keys[3] != keys[12]);
            }
        } else if i == 4 {
            if j == 5 {
                assert(keys[4] != keys[5]);
            } else if j == 6 {
                assert(keys[4] != keys[6]);
            } else if j == 7 {
                assert(keys[4] != keys[7]);
            } else if j == 8 {
                assert(keys[4] != keys[8]);
            } else if j == 9 {
                assert(keys[4] != keys[9]);
            } else if j == 10 {
                assert(keys[4] != keys[10]);
            } else if j == 11 {
                assert(keys[4] != keys[11]);
            } else if j == 12 {
                assert(keys[4] != keys[12]);
            }
        } else if i == 5 {
            if j == 6 {
                assert(keys[5] != keys[6]);
            } else if j == 7 {
                assert(keys[5] != keys[7]);
            } else if j == 8 {
                assert(keys[5] != keys[8]);
            } else if j == 9 {
                assert(keys[5] != keys[9]);
            } else if j == 10 {
                assert(keys[5] != keys[10]);
            } else if j == 11 {
                assert(keys[5] != keys[11]);
            } else if j == 12 {
                assert(keys[5] != keys[12]);
            }
        } else if i == 6 {
            if j == 7 {
                assert(keys[6] != keys[7]);
            } else if j == 8 {
                assert(keys[6] != keys[8]);
            } else if j == 9 {
                assert(keys[6] != keys[9]);
            } else if j == 10 {
                assert(keys[6] != keys[10]);
            } else if j == 11 {
                assert(keys[6] != keys[11]);
            } else if j == 12 {
                assert(keys[6] != keys[12]);
            }
        } else if i == 7 {
            if j == 8 {
                assert(keys[7] != keys[8]);
            } else if j == 9 {
                assert(keys[7] != keys[9]);
            } else if j == 10 {
                assert(keys[7] != keys[10]);
            } else if j == 11 {
                assert(keys[7] != keys[11]);
            } else if j == 12 {
                assert(keys[7] != keys[12]);
            }
        } else if i == 8 {
            if j == 9 {
                assert(keys[8] != keys[9]);
            } else if j == 10 {
                assert(keys[8] != keys[10]);
            } else if j == 11 {
                assert(keys[8] != keys[11]);
            } else if j == 12 {
                assert(keys[8] != keys[12]);
            }
        } else if i == 9 {
            if j == 10 {
                assert(keys[9] != keys[10]);
            } else if j == 11 {
                assert(keys[9] != keys[11]);
            } else if j == 12 {
                assert(keys[9] != keys[12]);
            }
        } else if i == 10 {
            if j == 11 {
                assert(keys[10] != keys[11]);
            } else if j == 12 {
                assert(keys[10] != keys[12]);
            }
        } else if i == 11 {
            if j == 12 {
                assert(keys[11] != keys[12]);
            }
        } else if i == 12 {
        }
    }
    assert forall|i: int| 0 <= i < 13 implies #[trigger] kvs[i].0 == keys[i] by {
        if i == 0 {
            assert(kvs[0].0 == keys[0]);
        } else if i == 1 {
            assert(kvs[1].0 == keys[1]);
        } else if i == 2 {
            assert(kvs[2].0 == keys[2]);
        } else if i == 3 {
            assert(kvs[3].0 == keys[3]);
        } else if i == 4 {
            assert(kvs[4].0 == keys[4]);
        } else if i == 5 {
            assert(kvs[5].0 == keys[5]);
        } else if i == 6 {
            assert(kvs[6].0 == keys[6]);
        } else if i == 7 {
            assert(kvs[7].0 == keys[7]);
        } else if i == 8 {
            assert(kvs[8].0 == keys[8]);
        } else if i == 9 {
            assert(kvs[9].0 == keys[9]);
        } else if i == 10 {
            assert(kvs[10].0 == keys[10]);
        } else if i == 11 {
            assert(kvs[11].0 == keys[11]);
        } else if i == 12 {
            assert(kvs[12].0 == keys[12]);
        }
    }
    assert(kvs[0] == ("general.architecture"@, GGUFValueView::String(a)));
    assert(kvs[1] == ("general.quantization_version"@, GGUFValueView::U32(2)));
    assert(kvs[2] == ("general.name"@, GGUFValueView::String(c.model_name@)));
    assert(kvs[3] == (a + ".context_length"@, GGUFValueView::U32(c.max_position_embeddings)));
    assert(kvs[4] == (a + ".embedding_length"@, GGUFValueView::U32(c.hidden_size)));
    assert(kvs[5] == (a + ".block_count"@, GGUFValueView::U32(c.num_hidden_layers)));
    assert(kvs[6] == (a + ".feed_forward_length"@, GGUFValueView::U32(c.intermediate_size)));
    assert(kvs[7] == (a + ".attention.head_count"@, GGUFValueView::U32(c.num_attention_heads)));
    assert(kvs[8] == (a + ".attention.head_count_kv"@, GGUFValueView::U32(
            match c.num_key_value_heads {
                Some(k) => k,
                None => c.num_attention_heads,
            },
        )));
    assert(kvs[9] == (a + ".attention.layer_norm_rms_epsilon"@, GGUFValueView::F32(c.rms_norm_eps)));
    assert(kvs[10] == (a + ".rope.dimension_count"@, GGUFValueView::U32((c.hidden_size / c.num_attention_heads) as u32)));
    assert(kvs[11] == (a + ".rope.freq_base"@, GGUFValueView::F32(
            match c.rope_theta {
                Some(t) => t,
                None => 0x461C_4000,
            },
        )));
    assert(kvs[12] == (a + ".vocab_size"@, GGUFValueView::U32(c.vocab_size)));
}

/// A pair for an optional unsigned value, or nothing.
pub open spec fn opt_u32_kv(key: Seq<char>, v: Option<u32>) -> Seq<(Seq<char>, GGUFValueView)> {
    match v {
        Some(x) => seq![(key, GGUFValueView::U32(x))],
        None => Seq::empty(),
    }
}

/// The tokenizer metadata: model, tokens, token types and merges, then each
/// special token id and the chat template that are present.
pub open spec fn tokenizer_kvs_spec(t: TokenizerInfo) -> Seq<(Seq<char>, GGUFValueView)> {
    seq![
        ("tokenizer.ggml.model"@, GGUFValueView::String("gpt2"@)),
        ("tokenizer.ggml.tokens"@, GGUFValueView::ArrayString(strings_view(t.tokens@))),
        ("tokenizer.ggml.token_type"@, GGUFValueView::ArrayI32(t.token_types@)),
        ("tokenizer.ggml.merges"@, GGUFValueView::ArrayString(strings_view(t.merges@))),
    ] + opt_u32_kv("tokenizer.ggml.bos_token_id"@, t.bos_token_id) + opt_u32_kv(
        "tokenizer.ggml.eos_token_id"@,
        t.eos_token_id,
    ) + opt_u32_kv("tokenizer.ggml.unknown_token_id"@, t.unk_token_id) + opt_u32_kv(
        "tokenizer.ggml.padding_token_id"@,
        t.pad_token_id,
    ) + match t.chat_template {
        Some(s) => seq![("tokenizer.chat_template"@, GGUFValueView::String(s@))],
        None => Seq::empty(),
    }
}

/// `kvs` and `more` share no key.
pub open spec fn keys_apart(kvs: Seq<(Seq<char>, GGUFValueView)>, more: Seq<(Seq<char>, GGUFValueView)>) -> bool {
    forall|i: int, j: int|
        0 <= i < kvs.len() && 0 <= j < more.len() ==> #[trigger] kvs[i].0 != #[trigger] more[j].0
}

/// A key occurs in two lists one after the other exactly where it occurs in
/// either, a pair of either occurs in both together, and two lists without
/// repeated keys that share none give a list without repeated keys.
proof fn lemma_kvs_concat(
    a: Seq<(Seq<char>, GGUFValueView)>,
    b: Seq<(Seq<char>, GGUFValueView)>,
    key: Seq<char>,
    v: GGUFValueView,
)
    ensures
        has_key(a + b, key) <==> has_key(a, key) || has_key(b, key),
        has_kv(a, key, v) || has_kv(b, key, v) ==> has_kv(a + b, key, v),
        keys_distinct(a) && keys_distinct(b) && keys_apart(a, b) ==> keys_distinct(a + b),
{
    let c = a + b;
    if has_key(c, key) {
        let i = choose|i: int| 0 <= i < c.len() && #[trigger] c[i].0 == key;
        if i < a.len() {
            assert(a[i] == c[i]);
        } else {
            assert(b[i - a.len()] == c[i]);
        }
    }
    if has_key(a, key) {
        let i = choose|i: int| 0 <= i < a.len() && #[trigger] a[i].0 == key;
        assert(c[i] == a[i]);
    }
    if has_key(b, key) {
        let i = choose|i: int| 0 <= i < b.len() && #[trigger] b[i].0 == key;
        assert(c[i + a.len()] == b[i]);
    }
    if has_kv(a, key, v) {
        let i = choose|i: int| 0 <= i < a.len() && #[trigger] a[i] == (key, v);
        assert(c[i] == a[i]);
    }
    if has_kv(b, key, v) {
        let i = choose|i: int| 0 <= i < b.len() && #[trigger] b[i] == (key, v);
        assert(c[i + a.len()] == b[i]);
    }
    if keys_distinct(a) && keys_distinct(b) && keys_apart(a, b) {
        assert forall|i: int, j: int| 0 <= i < j < c.len() implies #[trigger] c[i].0 != #[trigger] c[j].0 by {
            if j < a.len() {
                assert(c[i] == a[i] && c[j] == a[j]);
            } else if i >= a.len() {
                assert(c[i] == b[i - a.len()] && c[j] == b[j - a.len()]);
            } else {
                assert(c[i] == a[i] && c[j] == b[j - a.len()]);
            }
        }
    }
}

/// Each tokenizer key holds its field: the model `gpt2`, the tokens, the
/// token types and the merges; each special token id's key is present exactly
/// where that id is, and holds it (`bos_token_id`, `eos_token_id`,
/// `unk_token_id` under `unknown_token_id`, `pad_token_id` under
/// `padding_token_id`), and likewise the chat template; and no key occurs
/// twice.
pub proof fn lemma_tokenizer_kvs_by_key(t: TokenizerInfo)
    ensures
        keys_distinct(tokenizer_kvs_spec(t)),
        has_kv(tokenizer_kvs_spec(t), "tokenizer.ggml.model"@, GGUFValueView::String("gpt2"@)),
        has_kv(
            tokenizer_kvs_spec(t),
            "tokenizer.ggml.tokens"@,
            GGUFValueView::ArrayString(t.tokens@.map_values(|s: String| s@)),
        ),
        has_kv(
            tokenizer_kvs_spec(t),
            "tokenizer.ggml.token_type"@,
            GGUFValueView::ArrayI32(t.token_types@),
        ),
        has_kv(
            tokenizer_kvs_spec(t),
            "tokenizer.ggml.merges"@,
            GGUFValueView::ArrayString(t.merges@.map_values(|s: String| s@)),
        ),
        has_key(tokenizer_kvs_spec(t), "tokenizer.ggml.bos_token_id"@) <==> t.bos_token_id is Some,
        t.bos_token_id matches Some(x) ==> has_kv(
            tokenizer_kvs_spec(t),
            "tokenizer.ggml.bos_token_id"@,
            GGUFValueView::U32(x),
        ),
        has_key(tokenizer_kvs_spec(t), "tokenizer.ggml.eos_token_id"@) <==> t.eos_token_id is Some,
        t.eos_token_id matches Some(x) ==> has_kv(
            tokenizer_kvs_spec(t),
            "tokenizer.ggml.eos_token_id"@,
            GGUFValueView::U32(x),
        ),
        has_key(tokenizer_kvs_spec(t), "tokenizer.ggml.unknown_token_id"@) <==> t.unk_token_id is Some,
        t.unk_token_id matches Some(x) ==> has_kv(
            tokenizer_kvs_spec(t),
            "tokenizer.ggml.unknown_token_id"@,
            GGUFValueView::U32(x),
        ),
        has_key(tokenizer_kvs_spec(t), "tokenizer.ggml.padding_token_id"@) <==> t.pad_token_id is Some,
        t.pad_token_id matches Some(x) ==> has_kv(
            tokenizer_kvs_spec(t),
            "tokenizer.ggml.padding_token_id"@,
            GGUFValueView::U32(x),
        ),
        has_key(tokenizer_kvs_spec(t), "tokenizer.chat_template"@) <==> t.chat_template is Some,
        t.chat_template matches Some(s) ==> has_kv(
            tokenizer_kvs_spec(t),
            "tokenizer.chat_template"@,
            GGUFValueView::String(s@),
        ),
{
    reveal_strlit("tokenizer.ggml.model");
    reveal_strlit("tokenizer.ggml.tokens");
    reveal_strlit("tokenizer.ggml.token_type");
    reveal_strlit("tokenizer.ggml.merges");
    reveal_strlit("tokenizer.ggml.bos_token_id");
    reveal_strlit("tokenizer.ggml.eos_token_id");
    reveal_strlit("tokenizer.ggml.unknown_token_id");
    reveal_strlit("tokenizer.ggml.padding_token_id");
    reveal_strlit("tokenizer.chat_template");
    reveal_strlit("gpt2");
    assert("tokenizer.ggml.model"@.len() != "tokenizer.ggml.tokens"@.len());
    assert("tokenizer.ggml.model"@.len() != "tokenizer.ggml.token_type"@.len());
    assert("tokenizer.ggml.model"@.len() != "tokenizer.ggml.merges"@.len());
    assert("tokenizer.ggml.model"@.len() != "tokenizer.ggml.bos_token_id"@.len());
    assert("tokenizer.ggml.model"@.len() != "tokenizer.ggml.eos_token_id"@.len());
    assert("tokenizer.ggml.model"@.len() != "tokenizer.ggml.unknown_token_id"@.len());
    assert("tokenizer.ggml.model"@.len() != "tokenizer.ggml.padding_token_id"@.len());
    assert("tokenizer.ggml.model"@.len() != "tokenizer.chat_template"@.len());
    assert("tokenizer.ggml.tokens"@.len() != "tokenizer.ggml.token_type"@.len());
    assert("tokenizer.ggml.tokens"@[15] != "tokenizer.ggml.merges"@[15]);
    assert("tokenizer.ggml.tokens"@.len() != "tokenizer.ggml.bos_token_id"@.len());
    assert("tokenizer.ggml.tokens"@.len() != "tokenizer.ggml.eos_token_id"@.len());
    assert("tokenizer.ggml.tokens"@.len() != "tokenizer.ggml.unknown_token_id"@.len());
    assert("tokenizer.ggml.tokens"@.len() != "tokenizer.ggml.padding_token_id"@.len());
    assert("tokenizer.ggml.tokens"@.len() != "tokenizer.chat_template"@.len());
    assert("tokenizer.ggml.token_type"@.len() != "tokenizer.ggml.merges"@.len());
    assert("tokenizer.ggml.token_type"@.len() != "tokenizer.ggml.bos_token_id"@.len());
    assert("tokenizer.ggml.token_type"@.len() != "tokenizer.ggml.eos_token_id"@.len());
    assert("tokenizer.ggml.token_type"@.len() != "tokenizer.ggml.unknown_token_id"@.len());
    assert("tokenizer.ggml.token_type"@.len() != "tokenizer.ggml.padding_token_id"@.len());
    assert("tokenizer.ggml.token_type"@.len() != "tokenizer.chat_template"@.len());
    assert("tokenizer.ggml.merges"@.len() != "tokenizer.ggml.bos_token_id"@.len());
    assert("tokenizer.ggml.merges"@.len() != "tokenizer.ggml.eos_token_id"@.len());
    assert("tokenizer.ggml.merges"@.len() != "tokenizer.ggml.unknown_token_id"@.len());
    assert("tokenizer.ggml.merges"@.len() != "tokenizer.ggml.padding_token_id"@.len());
    assert("tokenizer.ggml.merges"@.len() != "tokenizer.chat_template"@.len());
    assert("tokenizer.ggml.bos_token_id"@[15] != "tokenizer.ggml.eos_token_id"@[15]);
    assert("tokenizer.ggml.bos_token_id"@.len() != "tokenizer.ggml.unknown_token_id"@.len());
    assert("tokenizer.ggml.bos_token_id"@.len() != "tokenizer.ggml.padding_token_id"@.len());
    assert("tokenizer.ggml.bos_token_id"@.len() != "tokenizer.chat_template"@.len());
    assert("tokenizer.ggml.eos_token_id"@.len() != "tokenizer.ggml.unknown_token_id"@.len());
    assert("tokenizer.ggml.eos_token_id"@.len() != "tokenizer.ggml.padding_token_id"@.len());
    assert("tokenizer.ggml.eos_token_id"@.len() != "tokenizer.chat_template"@.len());
    assert("tokenizer.ggml.unknown_token_id"@[15] != "tokenizer.ggml.padding_token_id"@[15]);
    assert("tokenizer.ggml.unknown_token_id"@.len() != "tokenizer.chat_template"@.len());
    assert("tokenizer.ggml.padding_token_id"@.len() != "tokenizer.chat_template"@.len());
    let base = seq![
        ("tokenizer.ggml.model"@, GGUFValueView::String("gpt2"@)),
        ("tokenizer.ggml.tokens"@, GGUFValueView::ArrayString(strings_view(t.tokens@))),
        ("tokenizer.ggml.token_type"@, GGUFValueView::ArrayI32(t.token_types@)),
        ("tokenizer.ggml.merges"@, GGUFValueView::ArrayString(strings_view(t.merges@))),
    ];
    let ob = opt_u32_kv("tokenizer.ggml.bos_token_id"@, t.bos_token_id);
    let oe = opt_u32_kv("tokenizer.ggml.eos_token_id"@, t.eos_token_id);
    let ou = opt_u32_kv("tokenizer.ggml.unknown_token_id"@, t.unk_token_id);
    let op = opt_u32_kv("tokenizer.ggml.padding_token_id"@, t.pad_token_id);
    let oc = chat_template_kv(t.chat_template);
    let p1 = base + ob;
    let p2 = p1 + oe;
    let p3 = p2 + ou;
    let p4 = p3 + op;
    let kvs = p4 + oc;
    assert(kvs == tokenizer_kvs_spec(t));

    assert(keys_distinct(base)) by {
        assert forall|i: int, j: int| 0 <= i < j < base.len() implies #[trigger] base[i].0
            != #[trigger] base[j].0 by {
            if i == 0 {
            } else if i == 1 {
            } else if i == 2 {
            }
        }
    }
    assert(!has_key(base, "tokenizer.ggml.bos_token_id"@) && !has_key(base, "tokenizer.ggml.eos_token_id"@)
        && !has_key(base, "tokenizer.ggml.unknown_token_id"@) && !has_key(base, "tokenizer.ggml.padding_token_id"@)
        && !has_key(base, "tokenizer.chat_template"@)) by {
        assert forall|i: int| 0 <= i < base.len() implies #[trigger] base[i].0 != "tokenizer.ggml.bos_token_id"@
            && base[i].0 != "tokenizer.ggml.eos_token_id"@ && base[i].0 != "tokenizer.ggml.unknown_token_id"@
            && base[i].0 != "tokenizer.ggml.padding_token_id"@ && base[i].0 != "tokenizer.chat_template"@ by {
            if i == 0 {
            } else if i == 1 {
            } else if i == 2 {
            }
        }
    }
    lemma_opt_segment("tokenizer.ggml.bos_token_id"@, t.bos_token_id, base);
    lemma_opt_segment("tokenizer.ggml.eos_token_id"@, t.eos_token_id, p1);
    lemma_opt_segment("tokenizer.ggml.unknown_token_id"@, t.unk_token_id, p2);
    lemma_opt_segment("tokenizer.ggml.padding_token_id"@, t.pad_token_id, p3);
    lemma_chat_segment(t.chat_template, p4);
    assert(base[0] == ("tokenizer.ggml.model"@, GGUFValueView::String("gpt2"@)));
    let v0 = GGUFValueView::String("gpt2"@);
    lemma_kvs_concat(base, ob, "tokenizer.ggml.model"@, v0);
    lemma_kvs_concat(p1, oe, "tokenizer.ggml.model"@, v0);
    lemma_kvs_concat(p2, ou, "tokenizer.ggml.model"@, v0);
    lemma_kvs_concat(p3, op, "tokenizer.ggml.model"@, v0);
    lemma_kvs_concat(p4, oc, "tokenizer.ggml.model"@, v0);
    assert(base[1] == ("tokenizer.ggml.tokens"@, GGUFValueView::ArrayString(strings_view(t.tokens@))));
    let v1 = GGUFValueView::ArrayString(strings_view(t.tokens@));
    lemma_kvs_concat(base, ob, "tokenizer.ggml.tokens"@, v1);
    lemma_kvs_concat(p1, oe, "tokenizer.ggml.tokens"@, v1);
    lemma_kvs_concat(p2, ou, "tokenizer.ggml.tokens"@, v1);
    lemma_kvs_concat(p3, op, "tokenizer.ggml.tokens"@, v1);
    lemma_kvs_concat(p4, oc, "tokenizer.ggml.tokens"@, v1);
    assert(base[2] == ("tokenizer.ggml.token_type"@, GGUFValueView::ArrayI32(t.token_types@)));
    let v2 = GGUFValueView::ArrayI32(t.token_types@);
    lemma_kvs_concat(base, ob, "tokenizer.ggml.token_type"@, v2);
    lemma_kvs_concat(p1, oe, "tokenizer.ggml.token_type"@, v2);
    lemma_kvs_concat(p2, ou, "tokenizer.ggml.token_type"@, v2);
    lemma_kvs_concat(p3, op, "tokenizer.ggml.token_type"@, v2);
    lemma_kvs_concat(p4, oc, "tokenizer.ggml.token_type"@, v2);
    assert(base[3] == ("tokenizer.ggml.merges"@, GGUFValueView::ArrayString(strings_view(t.merges@))));
    let v3 = GGUFValueView::ArrayString(strings_view(t.merges@));
    lemma_kvs_concat(base, ob, "tokenizer.ggml.merges"@, v3);
    lemma_kvs_concat(p1, oe, "tokenizer.ggml.merges"@, v3);
    lemma_kvs_concat(p2, ou, "tokenizer.ggml.merges"@, v3);
    lemma_kvs_concat(p3, op, "tokenizer.ggml.merges"@, v3);
    lemma_kvs_concat(p4, oc, "tokenizer.ggml.merges"@, v3);
    let v4 = match t.bos_token_id {
        Some(x) => GGUFValueView::U32(x),
        None => GGUFValueView::U32(0),
    };
    lemma_kvs_concat(base, ob, "tokenizer.ggml.bos_token_id"@, v4);
    lemma_kvs_concat(p1, oe, "tokenizer.ggml.bos_token_id"@, v4);
    lemma_kvs_concat(p2, ou, "tokenizer.ggml.bos_token_id"@, v4);
    lemma_kvs_concat(p3, op, "tokenizer.ggml.bos_token_id"@, v4);
    lemma_kvs_concat(p4, oc, "tokenizer.ggml.bos_token_id"@, v4);
    let v5 = match t.eos_token_id {
        Some(x) => GGUFValueView::U32(x),
        None => GGUFValueView::U32(0),
    };
    lemma_kvs_concat(base, ob, "tokenizer.ggml.eos_token_id"@, v5);
    lemma_kvs_concat(p1, oe, "tokenizer.ggml.eos_token_id"@, v5);
    lemma_kvs_concat(p2, ou, "tokenizer.ggml.eos_token_id"@, v5);
    lemma_kvs_concat(p3, op, "tokenizer.ggml.eos_token_id"@, v5);
    lemma_kvs_concat(p4, oc, "tokenizer.ggml.eos_token_id"@, v5);
    let v6 = match t.unk_token_id {
        Some(x) => GGUFValueView::U32(x),
        None => GGUFValueView::U32(0),
    };
    lemma_kvs_concat(base, ob, "tokenizer.ggml.unknown_token_id"@, v6);
    lemma_kvs_concat(p1, oe, "tokenizer.ggml.unknown_token_id"@, v6);
    lemma_kvs_concat(p2, ou, "tokenizer.ggml.unknown_token_id"@, v6);
    lemma_kvs_concat(p3, op, "tokenizer.ggml.unknown_token_id"@, v6);
    lemma_kvs_concat(p4, oc, "tokenizer.ggml.unknown_token_id"@, v6);
    let v7 = match t.pad_token_id {
        Some(x) => GGUFValueView::U32(x),
        None => GGUFValueView::U32(0),
    };
    lemma_kvs_concat(base, ob, "tokenizer.ggml.padding_token_id"@, v7);
    lemma_kvs_concat(p1, oe, "tokenizer.ggml.padding_token_id"@, v7);
    lemma_kvs_concat(p2, ou, "tokenizer.ggml.padding_token_id"@, v7);
    lemma_kvs_concat(p3, op, "tokenizer.ggml.padding_token_id"@, v7);
    lemma_kvs_concat(p4, oc, "tokenizer.ggml.padding_token_id"@, v7);
    let v8 = match t.chat_template {
        Some(s) => GGUFValueView::String(s@),
        None => GGUFValueView::U32(0),
    };
    lemma_kvs_concat(base, ob, "tokenizer.chat_template"@, v8);
    lemma_kvs_concat(p1, oe, "tokenizer.chat_template"@, v8);
    lemma_kvs_concat(p2, ou, "tokenizer.chat_template"@, v8);
    lemma_kvs_concat(p3, op, "tokenizer.chat_template"@, v8);
    lemma_kvs_concat(p4, oc, "tokenizer.chat_template"@, v8);
}

/// An optional pair holds its key exactly where the value is present, and
/// then with that value; it repeats no key, and shares none with a list
/// that lacks its key.
proof fn lemma_opt_segment(key: Seq<char>, v: Option<u32>, before: Seq<(Seq<char>, GGUFValueView)>)
    ensures
        keys_distinct(opt_u32_kv(key, v)),
        has_key(opt_u32_kv(key, v), key) <==> v is Some,
        v matches Some(x) ==> has_kv(opt_u32_kv(key, v), key, GGUFValueView::U32(x)),
        forall|k: Seq<char>| k != key ==> !has_key(#[trigger] opt_u32_kv(key, v), k),
        !has_key(before, key) ==> keys_apart(before, opt_u32_kv(key, v)),
{
    if let Some(x) = v {
        assert(opt_u32_kv(key, v)[0] == (key, GGUFValueView::U32(x)));
        assert(opt_u32_kv(key, v)[0].0 == key);
    } else {
        assert(opt_u32_kv(key, v).len() == 0);
    }
    if !has_key(before, key) {
        assert forall|i: int, j: int|
            0 <= i < before.len() && 0 <= j < opt_u32_kv(key, v).len() implies #[trigger] before[i].0
            != #[trigger] opt_u32_kv(key, v)[j].0 by {
            if before[i].0 == key {
                assert(has_key(before, key));
            }
        }
    }
}

/// The chat template pair, where there is a template.
pub open spec fn chat_template_kv(tmpl: Option<String>) -> Seq<(Seq<char>, GGUFValueView)> {
    match tmpl {
        Some(s) => seq![("tokenizer.chat_template"@, GGUFValueView::String(s@))],
        None => Seq::empty(),
    }
}

/// The chat template pair holds its key exactly where there is a template,
/// repeats no key, and shares none with a list that lacks its key.
proof fn lemma_chat_segment(tmpl: Option<String>, before: Seq<(Seq<char>, GGUFValueView)>)
    ensures
        keys_distinct(chat_template_kv(tmpl)),
        has_key(chat_template_kv(tmpl), "tokenizer.chat_template"@) <==> tmpl is Some,
        tmpl matches Some(s) ==> has_kv(
            chat_template_kv(tmpl),
            "tokenizer.chat_template"@,
            GGUFValueView::String(s@),
        ),
        forall|k: Seq<char>|
            k != "tokenizer.chat_template"@ ==> !has_key(#[trigger] chat_template_kv(tmpl), k),
        !has_key(before, "tokenizer.chat_template"@) ==> keys_apart(before, chat_template_kv(tmpl)),
{
    if let Some(s) = tmpl {
        assert(chat_template_kv(tmpl)[0] == ("tokenizer.chat_template"@, GGUFValueView::String(s@)));
        assert(chat_template_kv(tmpl)[0].0 == "tokenizer.chat_template"@);
    } else {
        assert(chat_template_kv(tmpl).len() == 0);
    }
    if !has_key(before, "tokenizer.chat_template"@) {
        assert forall|i: int, j: int|
            0 <= i < before.len() && 0 <= j < chat_template_kv(tmpl).len() implies #[trigger] before[i].0
            != #[trigger] chat_template_kv(tmpl)[j].0 by {
            if before[i].0 == "tokenizer.chat_template"@ {
                assert(has_key(before, "tokenizer.chat_template"@));
            }
        }
    }
}

/// A copy of a list of strings.
fn copy_strings(v: &Vec<String>) -> (r: Vec<String>)
    ensures
        strings_view(r@) == strings_view(v@),
{
    let mut r: Vec<String> = Vec::with_capacity(v.len());
    let mut i: usize = 0;
    while i < v.len()
        invariant
            0 <= i <= v.len(),
            r@.len() == i,
            forall|j: int| 0 <= j < i ==> (#[trigger] r@[j])@ == v@[j]@,
        decreases v.len() - i,
    {
        r.push(v[i].clone());
        i = i + 1;
    }
    assert(strings_view(r@) =~= strings_view(v@));
    r
}

/// A copy of a list of `i32`.
fn copy_i32s(v: &Vec<i32>) -> (r: Vec<i32>)
    ensures
        r@ == v@,
{
    let mut r: Vec<i32> = Vec::with_capacity(v.len());
    let mut i: usize = 0;
    while i < v.len()
        invariant
            0 <= i <= v.len(),
            r@ == v@.take(i as int),
        decreases v.len() - i,
    {
        r.push(v[i]);
        i = i + 1;
    }
    assert(v@.take(v.len() as int) == v@);
    r
}

/// Appends a pair for an optional unsigned value.
fn push_opt_u32(kvs: &mut Vec<(String, GGUFValue)>, key: &str, v: Option<u32>)
    ensures
        kvs_view(final(kvs)@) == kvs_view(old(kvs)@) + opt_u32_kv(key@, v),
{
    if let Some(id) = v {
        kvs.push((owned(key), GGUFValue::U32(id)));
    }
    assert(kvs_view(final(kvs)@) =~= kvs_view(old(kvs)@) + opt_u32_kv(key@, v));
}

/// The tokenizer metadata of a model.
pub fn tokenizer_kvs(tokenizer_info: &TokenizerInfo) -> (r: Vec<(String, GGUFValue)>)
    ensures
        kvs_view(r@) == tokenizer_kvs_spec(*tokenizer_info),
{
    let mut kvs: Vec<(String, GGUFValue)> = Vec::new();
    kvs.push((owned("tokenizer.ggml.model"), GGUFValue::String(owned("gpt2"))));
    kvs.push(
        (
            owned("tokenizer.ggml.tokens"),
            GGUFValue::ArrayString(copy_strings(&tokenizer_info.tokens)),
        ),
    );
    kvs.push(
        (
            owned("tokenizer.ggml.token_type"),
            GGUFValue::ArrayI32(copy_i32s(&tokenizer_info.token_types)),
        ),
    );
    kvs.push(
        (
            owned("tokenizer.ggml.merges"),
            GGUFValue::ArrayString(copy_strings(&tokenizer_info.merges)),
        ),
    );
    let ghost t = *tokenizer_info;
    let ghost base = seq![
        ("tokenizer.ggml.model"@, GGUFValueView::String("gpt2"@)),
        ("tokenizer.ggml.tokens"@, GGUFValueView::ArrayString(strings_view(t.tokens@))),
        ("tokenizer.ggml.token_type"@, GGUFValueView::ArrayI32(t.token_types@)),
        ("tokenizer.ggml.merges"@, GGUFValueView::ArrayString(strings_view(t.merges@))),
    ];
    assert(kvs_view(kvs@) =~= base);
    push_opt_u32(&mut kvs, "tokenizer.ggml.bos_token_id", tokenizer_info.bos_token_id);
    push_opt_u32(&mut kvs, "tokenizer.ggml.eos_token_id", tokenizer_info.eos_token_id);
    push_opt_u32(&mut kvs, "tokenizer.ggml.unknown_token_id", tokenizer_info.unk_token_id);
    push_opt_u32(&mut kvs, "tokenizer.ggml.padding_token_id", tokenizer_info.pad_token_id);
    let ghost before = kvs_view(kvs@);
    assert(before == base + opt_u32_kv("tokenizer.ggml.bos_token_id"@, t.bos_token_id) + opt_u32_kv(
        "tokenizer.ggml.eos_token_id"@,
        t.eos_token_id,
    ) + opt_u32_kv("tokenizer.ggml.unknown_token_id"@, t.unk_token_id) + opt_u32_kv(
        "tokenizer.ggml.padding_token_id"@,
        t.pad_token_id,
    ));
    if let Some(template) = &tokenizer_info.chat_template {
        kvs.push((owned("tokenizer.chat_template"), GGUFValue::String(template.clone())));
        assert(kvs_view(kvs@) =~= before + seq![("tokenizer.chat_template"@, GGUFValueView::String(template@))]);
    } else {
        assert(kvs_view(kvs@) =~= before + Seq::empty());
    }
    kvs
}

} // verus!
