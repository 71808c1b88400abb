//! The tokenizer data that GGUF stores: vocabulary, token types, merges and
//! special token ids, built from the contents of `tokenizer.json` and
//! `tokenizer_config.json`.

use crate::error::Error;
use crate::text::{concat2, str_eq};
use vstd::prelude::*;
use vstd::string::*;

verus! {

/// A BPE merge rule, as a pair or as one space-separated string.
pub enum MergeEntry {
    Pair(String, String),
    Combined(String),
}

/// The GGUF form of a merge rule: the two parts joined by a space.
pub open spec fn merge_string(m: MergeEntry) -> Seq<char> {
    match m {
        MergeEntry::Pair(a, b) => a@ + " "@ + b@,
        MergeEntry::Combined(s) => s@,
    }
}

impl MergeEntry {
    /// The GGUF form of this merge rule.
    pub fn to_gguf_string(&self) -> (r: String)
        ensures
            r@ == merge_string(*self),
    {
        match self {
            MergeEntry::Pair(a, b) => {
                let mut r = concat2(a.as_str(), " ");
                r.append(b.as_str());
                r
            },
            MergeEntry::Combined(s) => s.clone(),
        }
    }
}

/// A token that `tokenizer.json` adds to the vocabulary.
pub struct AddedToken {
    pub id: u32,
    pub content: String,
    pub special: bool,
}

/// The `model` part of `tokenizer.json`. The vocabulary lists each token
/// string once with its id.
pub struct TokenizerModel {
    pub model_type: String,
    pub vocab: Vec<(String, u32)>,
    pub merges: Vec<MergeEntry>,
}

/// The parts of `tokenizer.json` that GGUF needs.
pub struct TokenizerJson {
    pub model: TokenizerModel,
    pub added_tokens: Vec<AddedToken>,
}

/// A special token in `tokenizer_config.json`: a plain string, or an object
/// with a `content` field.
pub enum TokenRef {
    Plain(String),
    Detailed { content: String },
}

/// The text of a special token.
pub open spec fn token_ref_content(t: TokenRef) -> Seq<char> {
    match t {
        TokenRef::Plain(s) => s@,
        TokenRef::Detailed { content } => content@,
    }
}

impl TokenRef {
    /// The text of this token.
    pub fn content(&self) -> (r: &str)
        ensures
            r@ == token_ref_content(*self),
    {
        match self {
            TokenRef::Plain(s) => s.as_str(),
            TokenRef::Detailed { content } => content.as_str(),
        }
    }
}

/// The parts of `tokenizer_config.json` that GGUF needs.
pub struct TokenizerConfigJson {
    pub chat_template: Option<String>,
    pub bos_token: Option<TokenRef>,
    pub eos_token: Option<TokenRef>,
    pub pad_token: Option<TokenRef>,
    pub unk_token: Option<TokenRef>,
}

impl TokenizerConfigJson {
    /// The configuration of a model without `tokenizer_config.json`: no chat
    /// template and no special tokens.
    pub fn empty() -> (r: Self)
        ensures
            r.chat_template is None,
            r.bos_token is None,
            r.eos_token is None,
            r.pad_token is None,
            r.unk_token is None,
    {
        TokenizerConfigJson {
            chat_template: None,
            bos_token: None,
            eos_token: None,
            pad_token: None,
            unk_token: None,
        }
    }
}

/// The tokenizer data that GGUF stores.
pub struct TokenizerInfo {
    pub tokens: Vec<String>,
    pub token_types: Vec<i32>,
    pub merges: Vec<String>,
    pub bos_token_id: Option<u32>,
    pub eos_token_id: Option<u32>,
    pub unk_token_id: Option<u32>,
    pub pad_token_id: Option<u32>,
    pub chat_template: Option<String>,
}

// Reference: https://github.com/ggml-org/ggml/blob/master/docs/gguf.md#ggml
/// Token type of an ordinary token.
pub const GGUF_TOKEN_TYPE_NORMAL: i32 = 1;

/// Token type of a special (control) token.
pub const GGUF_TOKEN_TYPE_CONTROL: i32 = 3;

/// `i` is the first vocabulary entry whose string is `c`.
pub open spec fn is_first_vocab_match(vocab: Seq<(String, u32)>, c: Seq<char>, i: int) -> bool {
    &&& 0 <= i < vocab.len()
    &&& vocab[i].0@ == c
    &&& forall|j: int| 0 <= j < i ==> vocab[j].0@ != c
}

/// `k` is the first added token whose content is `c`.
pub open spec fn is_first_added_match(added: Seq<AddedToken>, c: Seq<char>, k: int) -> bool {
    &&& 0 <= k < added.len()
    &&& added[k].content@ == c
    &&& forall|j: int| 0 <= j < k ==> added[j].content@ != c
}

/// The id of the token `c`: from the vocabulary if it is there, else from the
/// added tokens, else none.
pub open spec fn lookup_content_spec(vocab: Seq<(String, u32)>, c: Seq<char>, added: Seq<AddedToken>) -> Option<u32> {
    if exists|i: int| is_first_vocab_match(vocab, c, i) {
        Some(vocab[choose|i: int| is_first_vocab_match(vocab, c, i)].1)
    } else if exists|k: int| is_first_added_match(added, c, k) {
        Some(added[choose|k: int| is_first_added_match(added, c, k)].id)
    } else {
        None
    }
}

/// The id of a special token, if it is named and found.
pub open spec fn lookup_id_spec(
    vocab: Seq<(String, u32)>,
    token_ref: Option<TokenRef>,
    added: Seq<AddedToken>,
) -> Option<u32> {
    match token_ref {
        None => None,
        Some(t) => lookup_content_spec(vocab, token_ref_content(t), added),
    }
}

/// The first match of a string is unique.
proof fn lemma_first_vocab_match_unique(vocab: Seq<(String, u32)>, c: Seq<char>, i: int, j: int)
    requires
        is_first_vocab_match(vocab, c, i),
        is_first_vocab_match(vocab, c, j),
    ensures
        i == j,
{
}

/// The first match of a content is unique.
proof fn lemma_first_added_match_unique(added: Seq<AddedToken>, c: Seq<char>, i: int, j: int)
    requires
        is_first_added_match(added, c, i),
        is_first_added_match(added, c, j),
    ensures
        i == j,
{
}

/// The id of a special token: the base vocabulary is searched first, then the
/// added tokens.
pub fn lookup_id(
    vocab: &Vec<(String, u32)>,
    token_ref: &Option<TokenRef>,
    added_tokens: &Vec<AddedToken>,
) -> (r: Option<u32>)
    ensures
        r == lookup_id_spec(vocab@, *token_ref, added_tokens@),
{
    let content = match token_ref {
        Some(t) => t.content(),
        None => {
            return None;
        },
    };
    let mut i: usize = 0;
    while i < vocab.len()
        invariant
            0 <= i <= vocab.len(),
            token_ref is Some,
            token_ref_content(token_ref->0) == content@,
            forall|j: int| 0 <= j < i ==> vocab@[j].0@ != content@,
        decreases vocab.len() - i,
    {
        if str_eq(vocab[i].0.as_str(), content) {
            proof {
                assert(is_first_vocab_match(vocab@, content@, i as int));
                let c = choose|x: int| is_first_vocab_match(vocab@, content@, x);
                lemma_first_vocab_match_unique(vocab@, content@, c, i as int);
            }
            return Some(vocab[i].1);
        }
        i = i + 1;
    }
    let mut k: usize = 0;
    while k < added_tokens.len()
        invariant
            0 <= k <= added_tokens.len(),
            token_ref is Some,
            token_ref_content(token_ref->0) == content@,
            forall|j: int| 0 <= j < vocab@.len() ==> vocab@[j].0@ != content@,
            forall|j: int| 0 <= j < k ==> added_tokens@[j].content@ != content@,
        decreases added_tokens.len() - k,
    {
        if str_eq(added_tokens[k].content.as_str(), content) {
            proof {
                assert(is_first_added_match(added_tokens@, content@, k as int));
                let c = choose|x: int| is_first_added_match(added_tokens@, content@, x);
                lemma_first_added_match_unique(added_tokens@, content@, c, k as int);
            }
            return Some(added_tokens[k].id);
        }
        k = k + 1;
    }
    None
}

/// No token string occurs twice in the vocabulary, as in the JSON object that
/// it is read from.
pub open spec fn vocab_distinct(vocab: Seq<(String, u32)>) -> bool {
    forall|i: int, j: int|
        0 <= i < vocab.len() && 0 <= j < vocab.len() && i != j ==> vocab[i].0@ != vocab[j].0@
}

/// The vocabulary as a map from token strings to ids.
pub open spec fn vocab_map(vocab: Seq<(String, u32)>) -> Map<Seq<char>, u32> {
    Map::new(
        |c: Seq<char>| exists|i: int| 0 <= i < vocab.len() && #[trigger] vocab[i].0@ == c,
        |c: Seq<char>| vocab[choose|i: int| 0 <= i < vocab.len() && #[trigger] vocab[i].0@ == c].1,
    )
}

/// Special token lookup searches the base vocabulary first: where the
/// vocabulary holds the token's text, its id there is the answer; otherwise
/// the first added token with that text gives the id, and a text found in
/// neither has no id.
pub proof fn lemma_lookup_prefers_vocab(vocab: Seq<(String, u32)>, c: Seq<char>, added: Seq<AddedToken>)
    requires
        vocab_distinct(vocab),
    ensures
        vocab_map(vocab).contains_key(c) ==> lookup_content_spec(vocab, c, added) == Some(
            vocab_map(vocab)[c],
        ),
        !vocab_map(vocab).contains_key(c) ==> lookup_content_spec(vocab, c, added) == (
        if exists|k: int| is_first_added_match(added, c, k) {
            Some(added[choose|k: int| is_first_added_match(added, c, k)].id)
        } else {
            None
        }),
{
    if vocab_map(vocab).contains_key(c) {
        let i = choose|i: int| 0 <= i < vocab.len() && #[trigger] vocab[i].0@ == c;
        assert(is_first_vocab_match(vocab, c, i));
        let f = choose|f: int| is_first_vocab_match(vocab, c, f);
        assert(f == i);
    } else {
        assert forall|i: int| !is_first_vocab_match(vocab, c, i) by {
            if is_first_vocab_match(vocab, c, i) {
                assert(vocab[i].0@ == c);
            }
        }
    }
}

/// The largest vocabulary id, or 0 for an empty vocabulary.
pub open spec fn max_vocab_id(vocab: Seq<(String, u32)>) -> int
    decreases vocab.len(),
{
    if vocab.len() == 0 {
        0
    } else {
        let m = max_vocab_id(vocab.drop_last());
        if vocab.last().1 > m {
            vocab.last().1 as int
        } else {
            m
        }
    }
}

/// Every id of the vocabulary is at most its largest.
proof fn lemma_max_vocab_id(vocab: Seq<(String, u32)>)
    ensures
        forall|i: int| 0 <= i < vocab.len() ==> vocab[i].1 <= max_vocab_id(vocab),
        0 <= max_vocab_id(vocab) <= u32::MAX,
    decreases vocab.len(),
{
    if vocab.len() > 0 {
        lemma_max_vocab_id(vocab.drop_last());
        assert forall|i: int| 0 <= i < vocab.len() implies vocab[i].1 <= max_vocab_id(vocab) by {
            if i < vocab.len() - 1 {
                assert(vocab[i] == vocab.drop_last()[i]);
            }
        }
    }
}

/// The length that the added tokens need: one more than their largest id,
/// or 0 where there is none.
pub open spec fn added_len(added: Seq<AddedToken>) -> int
    decreases added.len(),
{
    if added.len() == 0 {
        0
    } else {
        let m = added_len(added.drop_last());
        if added.last().id + 1 > m {
            added.last().id + 1
        } else {
            m
        }
    }
}

/// The last vocabulary entry with id `id`.
pub open spec fn last_vocab_with_id(vocab: Seq<(String, u32)>, id: int) -> Option<int>
    decreases vocab.len(),
{
    if vocab.len() == 0 {
        None
    } else if vocab.last().1 == id {
        Some(vocab.len() - 1)
    } else {
        last_vocab_with_id(vocab.drop_last(), id)
    }
}

/// The last added token with id `id`.
pub open spec fn last_added_with_id(added: Seq<AddedToken>, id: int) -> Option<int>
    decreases added.len(),
{
    if added.len() == 0 {
        None
    } else if added.last().id == id {
        Some(added.len() - 1)
    } else {
        last_added_with_id(added.drop_last(), id)
    }
}

/// Some special added token has id `id`.
pub open spec fn has_special_with_id(added: Seq<AddedToken>, id: int) -> bool {
    exists|k: int| 0 <= k < added.len() && #[trigger] added[k].id == id && added[k].special
}

/// The length of the token list: enough for the vocabulary, for the added
/// tokens and for the configured vocabulary size.
pub open spec fn token_count(vocab: Seq<(String, u32)>, added: Seq<AddedToken>, vocab_size: int) -> int {
    let base = max_vocab_id(vocab) + 1;
    let a = if added_len(added) > base {
        added_len(added)
    } else {
        base
    };
    if vocab_size > a {
        vocab_size
    } else {
        a
    }
}

/// Token `id`: the last added token with that id, else the last vocabulary
/// entry with that id, else the empty string.
pub open spec fn token_at(vocab: Seq<(String, u32)>, added: Seq<AddedToken>, id: int) -> Seq<char> {
    match last_added_with_id(added, id) {
        Some(k) => added[k].content@,
        None => match last_vocab_with_id(vocab, id) {
            Some(i) => vocab[i].0@,
            None => Seq::empty(),
        },
    }
}

/// Type of token `id`: control where a special added token has that id, else normal.
pub open spec fn token_type_at(added: Seq<AddedToken>, id: int) -> i32 {
    if has_special_with_id(added, id) {
        GGUF_TOKEN_TYPE_CONTROL
    } else {
        GGUF_TOKEN_TYPE_NORMAL
    }
}

/// Token types are GGUF's numbers: 3 (control) for an id that a special
/// added token has, 1 (normal) for every other id.
pub proof fn lemma_token_type_numbers(added: Seq<AddedToken>, id: int)
    ensures
        (exists|k: int| 0 <= k < added.len() && #[trigger] added[k].id == id && added[k].special)
            ==> token_type_at(added, id) == 3,
        !(exists|k: int| 0 <= k < added.len() && #[trigger] added[k].id == id && added[k].special)
            ==> token_type_at(added, id) == 1,
{
}

/// `info` is what `load_tokenizer_from_parsed` builds from `tokenizer`,
/// `config` and `vocab_size`.
pub open spec fn tokenizer_info_matches(
    info: TokenizerInfo,
    tokenizer: TokenizerJson,
    config: TokenizerConfigJson,
    vocab_size: int,
) -> bool {
    let vocab = tokenizer.model.vocab@;
    let added = tokenizer.added_tokens@;
    let n = token_count(vocab, added, vocab_size);
    &&& info.tokens@.len() == n
    &&& info.token_types@.len() == n
    &&& forall|j: int| 0 <= j < n ==> #[trigger] info.tokens@[j]@ == token_at(vocab, added, j)
    &&& forall|j: int| 0 <= j < n ==> #[trigger] info.token_types@[j] == token_type_at(added, j)
    &&& info.merges@.len() == tokenizer.model.merges@.len()
    &&& forall|j: int|
        0 <= j < info.merges@.len() ==> #[trigger] info.merges@[j]@ == merge_string(
            tokenizer.model.merges@[j],
        )
    &&& info.bos_token_id == lookup_id_spec(vocab, config.bos_token, added)
    &&& info.eos_token_id == lookup_id_spec(vocab, config.eos_token, added)
    &&& info.unk_token_id == lookup_id_spec(vocab, config.unk_token, added)
    &&& info.pad_token_id == lookup_id_spec(vocab, config.pad_token, added)
    &&& match (info.chat_template, config.chat_template) {
        (Some(a), Some(b)) => a@ == b@,
        (None, None) => true,
        _ => false,
    }
}

/// A list of `n` empty strings.
fn empty_strings(n: usize) -> (r: Vec<String>)
    ensures
        r@.len() == n,
        forall|j: int| 0 <= j < n ==> (#[trigger] r@[j])@ == Seq::<char>::empty(),
{
    let mut r: Vec<String> = Vec::with_capacity(n);
    let mut i: usize = 0;
    while i < n
        invariant
            0 <= i <= n,
            r@.len() == i,
            forall|j: int| 0 <= j < i ==> (#[trigger] r@[j])@ == Seq::<char>::empty(),
        decreases n - i,
    {
        r.push(String::new());
        i = i + 1;
    }
    r
}

/// Grows `tokens` with empty strings and `types` with the normal type to
/// length `n`.
fn grow_tokens(tokens: &mut Vec<String>, types: &mut Vec<i32>, n: usize)
    requires
        old(tokens)@.len() == old(types)@.len(),
        old(tokens)@.len() <= n,
    ensures
        final(tokens)@.len() == n,
        final(types)@.len() == n,
        forall|j: int| 0 <= j < old(tokens)@.len() ==> #[trigger] final(tokens)@[j] == old(tokens)@[j],
        forall|j: int| 0 <= j < old(types)@.len() ==> #[trigger] final(types)@[j] == old(types)@[j],
        forall|j: int|
            old(tokens)@.len() <= j < n ==> (#[trigger] final(tokens)@[j])@ == Seq::<char>::empty(),
        forall|j: int| old(types)@.len() <= j < n ==> #[trigger] final(types)@[j] == GGUF_TOKEN_TYPE_NORMAL,
{
    let start = tokens.len();
    let mut i = start;
    while i < n
        invariant
            start == old(tokens)@.len(),
            start <= i <= n,
            tokens@.len() == i,
            types@.len() == i,
            forall|j: int| 0 <= j < start ==> #[trigger] tokens@[j] == old(tokens)@[j],
            forall|j: int| 0 <= j < start ==> #[trigger] types@[j] == old(types)@[j],
            forall|j: int| start <= j < i ==> (#[trigger] tokens@[j])@ == Seq::<char>::empty(),
            forall|j: int| start <= j < i ==> #[trigger] types@[j] == GGUF_TOKEN_TYPE_NORMAL,
        decreases n - i,
    {
        tokens.push(String::new());
        types.push(GGUF_TOKEN_TYPE_NORMAL);
        i = i + 1;
    }
}

/// Accepts only BPE tokenizer models (else `UnsupportedTokenizerModel`).
pub fn check_tokenizer_model(tokenizer: &TokenizerJson) -> (r: Result<(), Error>)
    ensures
        r is Ok <==> tokenizer.model.model_type@ == "BPE"@,
        r matches Err(e) ==> e matches Error::UnsupportedTokenizerModel(t)
            && t@ == tokenizer.model.model_type@,
{
    if str_eq(tokenizer.model.model_type.as_str(), "BPE") {
        Ok(())
    } else {
        Err(Error::UnsupportedTokenizerModel(tokenizer.model.model_type.clone()))
    }
}

/// Builds the tokenizer data that GGUF stores.
///
/// Only BPE tokenizers are accepted (else `UnsupportedTokenizerModel`). Token
/// `i` is the string that the vocabulary or, overriding it, the added tokens
/// give id `i` (the last one where several do); ids that nothing names hold
/// the empty string. Special added tokens have the control type, all others
/// the normal type. The list is as long as the largest id needs and at least
/// `vocab_size`. Merges are joined by a space, and the special tokens of the
/// configuration are looked up by their text.
pub fn load_tokenizer_from_parsed(
    tokenizer: &TokenizerJson,
    config: &TokenizerConfigJson,
    vocab_size: u32,
) -> (r: Result<TokenizerInfo, Error>)
    requires
        tokenizer.model.model_type@ == "BPE"@ ==> forall|i: int|
            0 <= i < tokenizer.model.vocab@.len() ==> #[trigger] tokenizer.model.vocab@[i].1
                < u32::MAX,
        tokenizer.model.model_type@ == "BPE"@ ==> forall|k: int|
            0 <= k < tokenizer.added_tokens@.len() ==> #[trigger] tokenizer.added_tokens@[k].id
                < usize::MAX,
    ensures
        r is Err <==> tokenizer.model.model_type@ != "BPE"@,
        r matches Err(e) ==> e matches Error::UnsupportedTokenizerModel(t)
            && t@ == tokenizer.model.model_type@,
        r matches Ok(info) ==> tokenizer_info_matches(info, *tokenizer, *config, vocab_size as int),
{
    match check_tokenizer_model(tokenizer) {
        Ok(()) => {},
        Err(e) => {
            return Err(e);
        },
    }
    let vocab = &tokenizer.model.vocab;
    let added = &tokenizer.added_tokens;
    let ghost vs = vocab@;
    let ghost ad = added@;
    // The largest vocabulary id.
    let mut max_id: u32 = 0;
    let mut i: usize = 0;
    while i < vocab.len()
        invariant
            0 <= i <= vocab.len(),
            vs == vocab@,
            max_id == max_vocab_id(vs.take(i as int)),
        decreases vocab.len() - i,
    {
        assert(vs.take(i + 1).drop_last() == vs.take(i as int));
        if vocab[i].1 > max_id {
            max_id = vocab[i].1;
        }
        i = i + 1;
    }
    assert(vs.take(vocab.len() as int) == vs);
    proof {
        lemma_max_vocab_id(vs);
        if vs.len() > 0 {
            assert(vs[vs.len() - 1].1 <= max_vocab_id(vs));
        }
    }
    assert(max_id < u32::MAX) by {
        if vs.len() > 0 {
            lemma_max_vocab_id_attained(vs);
        }
    }
    let base = (max_id + 1) as usize;
    let mut tokens = empty_strings(base);
    let mut token_types: Vec<i32> = Vec::with_capacity(base);
    let mut t: usize = 0;
    while t < base
        invariant
            0 <= t <= base,
            token_types@.len() == t,
            forall|j: int| 0 <= j < t ==> #[trigger] token_types@[j] == GGUF_TOKEN_TYPE_NORMAL,
        decreases base - t,
    {
        token_types.push(GGUF_TOKEN_TYPE_NORMAL);
        t = t + 1;
    }
    // The base vocabulary.
    let mut i: usize = 0;
    while i < vocab.len()
        invariant
            0 <= i <= vocab.len(),
            vs == vocab@,
            base == max_vocab_id(vs) + 1,
            forall|x: int| 0 <= x < vs.len() ==> vs[x].1 <= max_vocab_id(vs),
            tokens@.len() == base,
            forall|j: int|
                0 <= j < base ==> (#[trigger] tokens@[j])@ == match last_vocab_with_id(
                    vs.take(i as int),
                    j,
                ) {
                    Some(x) => vs[x].0@,
                    None => Seq::<char>::empty(),
                },
        decreases vocab.len() - i,
    {
        let id = vocab[i].1 as usize;
        assert(vs[i as int].1 <= max_vocab_id(vs));
        let s = vocab[i].0.clone();
        tokens.set(id, s);
        assert(vs.take(i + 1).drop_last() == vs.take(i as int));
        assert(vs.take(i + 1).last() == vs[i as int]);
        i = i + 1;
    }
    assert(vs.take(vocab.len() as int) == vs);
    // The added tokens.
    let mut k: usize = 0;
    while k < added.len()
        invariant
            0 <= k <= added.len(),
            vs == vocab@,
            ad == added@,
            base == max_vocab_id(vs) + 1,
            forall|x: int| 0 <= x < ad.len() ==> #[trigger] ad[x].id < usize::MAX,
            tokens@.len() == token_types@.len(),
            tokens@.len() == if added_len(ad.take(k as int)) > base {
                added_len(ad.take(k as int))
            } else {
                base as int
            },
            forall|j: int|
                0 <= j < tokens@.len() ==> (#[trigger] tokens@[j])@ == token_at(
                    vs,
                    ad.take(k as int),
                    j,
                ),
            forall|j: int|
                0 <= j < token_types@.len() ==> #[trigger] token_types@[j] == token_type_at(
                    ad.take(k as int),
                    j,
                ),
        decreases added.len() - k,
    {
        let ghost prev = ad.take(k as int);
        let ghost cur = ad.take(k + 1);
        assert(cur.drop_last() == prev);
        assert(cur.last() == ad[k as int]);
        let a = &added[k];
        let idx = a.id as usize;
        assert(ad[k as int].id < usize::MAX);
        let ghost old_len = tokens@.len();
        if idx >= tokens.len() {
            grow_tokens(&mut tokens, &mut token_types, idx + 1);
        }
        let ghost grown_tokens = tokens@;
        let ghost grown_types = token_types@;
        proof {
            assert forall|j: int| 0 <= j < grown_tokens.len() implies (#[trigger] grown_tokens[j])@
                == token_at(vs, prev, j) by {
                if j >= old_len {
                    lemma_no_entry_beyond(vs, prev, j);
                }
            }
            assert forall|j: int| 0 <= j < grown_types.len() implies #[trigger] grown_types[j]
                == token_type_at(prev, j) by {
                if j >= old_len {
                    lemma_no_entry_beyond(vs, prev, j);
                }
            }
        }
        let content = a.content.clone();
        tokens.set(idx, content);
        if a.special {
            token_types.set(idx, GGUF_TOKEN_TYPE_CONTROL);
        }
        proof {
            assert(cur == prev.push(ad[k as int]));
            assert forall|j: int| 0 <= j < tokens@.len() implies (#[trigger] tokens@[j])@ == token_at(
                vs,
                cur,
                j,
            ) && token_types@[j] == token_type_at(cur, j) by {
                lemma_token_at_step(vs, prev, ad[k as int], j);
                lemma_special_step(prev, ad[k as int], j);
                if j != idx {
                    assert(tokens@[j] == grown_tokens[j]);
                } else {
                    assert(tokens@[j] == content);
                }
                assert(grown_types[j] == token_type_at(prev, j));
                if j != idx || !ad[k as int].special {
                    assert(token_types@[j] == grown_types[j]);
                } else {
                    assert(token_types@[j] == GGUF_TOKEN_TYPE_CONTROL);
                }
            }
        }
        k = k + 1;
    }
    assert(ad.take(added.len() as int) == ad);
    // At least `vocab_size` tokens.
    let vocab_size = vocab_size as usize;
    if tokens.len() < vocab_size {
        let ghost before = tokens@;
        let ghost before_types = token_types@;
        grow_tokens(&mut tokens, &mut token_types, vocab_size);
        proof {
            assert forall|j: int| 0 <= j < tokens@.len() implies (#[trigger] tokens@[j])@ == token_at(
                vs,
                ad,
                j,
            ) by {
                if j >= before.len() {
                    lemma_no_entry_beyond(vs, ad, j);
                } else {
                    assert(tokens@[j] == before[j]);
                }
            }
            assert forall|j: int| 0 <= j < token_types@.len() implies #[trigger] token_types@[j]
                == token_type_at(ad, j) by {
                if j >= before.len() {
                    lemma_no_entry_beyond(vs, ad, j);
                } else {
                    assert(token_types@[j] == before_types[j]);
                }
            }
        }
    }
    // The merges.
    let merges_in = &tokenizer.model.merges;
    let mut merges: Vec<String> = Vec::with_capacity(merges_in.len());
    let mut m: usize = 0;
    while m < merges_in.len()
        invariant
            0 <= m <= merges_in.len(),
            merges@.len() == m,
            forall|j: int|
                0 <= j < m ==> #[trigger] merges@[j]@ == merge_string(merges_in@[j]),
        decreases merges_in.len() - m,
    {
        merges.push(merges_in[m].to_gguf_string());
        m = m + 1;
    }
    let chat_template = match &config.chat_template {
        Some(t) => Some(t.clone()),
        None => None,
    };
    Ok(
        TokenizerInfo {
            tokens,
            token_types,
            merges,
            bos_token_id: lookup_id(vocab, &config.bos_token, added),
            eos_token_id: lookup_id(vocab, &config.eos_token, added),
            unk_token_id: lookup_id(vocab, &config.unk_token, added),
            pad_token_id: lookup_id(vocab, &config.pad_token, added),
            chat_template,
        },
    )
}

/// The largest vocabulary id is one of the ids.
proof fn lemma_max_vocab_id_attained(vocab: Seq<(String, u32)>)
    requires
        vocab.len() > 0,
    ensures
        exists|i: int| 0 <= i < vocab.len() && vocab[i].1 == max_vocab_id(vocab),
    decreases vocab.len(),
{
    if vocab.len() > 1 {
        lemma_max_vocab_id_attained(vocab.drop_last());
        let i = choose|i: int|
            0 <= i < vocab.drop_last().len() && vocab.drop_last()[i].1 == max_vocab_id(
                vocab.drop_last(),
            );
        if vocab.last().1 <= max_vocab_id(vocab.drop_last()) {
            assert(vocab[i].1 == max_vocab_id(vocab));
        } else {
            assert(vocab[vocab.len() - 1].1 == max_vocab_id(vocab));
        }
    } else {
        assert(vocab.drop_last().len() == 0);
        assert(max_vocab_id(vocab.drop_last()) == 0);
        assert(vocab.last() == vocab[0]);
        assert(vocab[0].1 == max_vocab_id(vocab));
    }
}

/// No vocabulary entry or added token names an id at or beyond the length
/// that they need: such a token is empty and of the normal type.
proof fn lemma_no_entry_beyond(vocab: Seq<(String, u32)>, added: Seq<AddedToken>, j: int)
    requires
        j >= max_vocab_id(vocab) + 1,
        j >= added_len(added),
    ensures
        token_at(vocab, added, j) == Seq::<char>::empty(),
        token_type_at(added, j) == GGUF_TOKEN_TYPE_NORMAL,
{
    lemma_max_vocab_id(vocab);
    lemma_no_vocab_id(vocab, j);
    lemma_no_added_id(added, j);
}

/// No vocabulary entry has an id above the largest.
proof fn lemma_no_vocab_id(vocab: Seq<(String, u32)>, j: int)
    requires
        j > max_vocab_id(vocab),
    ensures
        last_vocab_with_id(vocab, j) is None,
    decreases vocab.len(),
{
    if vocab.len() > 0 {
        lemma_no_vocab_id(vocab.drop_last(), j);
    }
}

/// No added token has an id at or above the length that they need.
proof fn lemma_no_added_id(added: Seq<AddedToken>, j: int)
    requires
        j >= added_len(added),
    ensures
        last_added_with_id(added, j) is None,
        !has_special_with_id(added, j),
    decreases added.len(),
{
    if added.len() > 0 {
        lemma_no_added_id(added.drop_last(), j);
        assert(!has_special_with_id(added, j)) by {
            if has_special_with_id(added, j) {
                let k = choose|k: int| 0 <= k < added.len() && #[trigger] added[k].id == j && added[k].special;
                if k < added.len() - 1 {
                    assert(added.drop_last()[k].id == j);
                }
            }
        }
    }
}

/// Appending a token gives its id that token's content.
proof fn lemma_token_at_step(vocab: Seq<(String, u32)>, prev: Seq<AddedToken>, a: AddedToken, j: int)
    ensures
        token_at(vocab, prev.push(a), j) == if a.id == j {
            a.content@
        } else {
            token_at(vocab, prev, j)
        },
{
    let cur = prev.push(a);
    assert(cur.drop_last() == prev);
    assert(cur.last() == a);
    assert(cur[prev.len() as int] == a);
    lemma_last_added_bound(prev, j);
    if let Some(k) = last_added_with_id(prev, j) {
        assert(cur[k] == prev[k]);
    }
}

/// The last added token with an id is one of the tokens.
proof fn lemma_last_added_bound(added: Seq<AddedToken>, id: int)
    ensures
        last_added_with_id(added, id) matches Some(k) ==> 0 <= k < added.len(),
    decreases added.len(),
{
    if added.len() > 0 {
        lemma_last_added_bound(added.drop_last(), id);
    }
}

/// Appending a token makes its id special exactly when it is special or the
/// id already was.
proof fn lemma_special_step(prev: Seq<AddedToken>, a: AddedToken, j: int)
    ensures
        has_special_with_id(prev.push(a), j) == (has_special_with_id(prev, j) || (a.id == j
            && a.special)),
{
    let cur = prev.push(a);
    if has_special_with_id(prev, j) {
        let k = choose|k: int| 0 <= k < prev.len() && #[trigger] prev[k].id == j && prev[k].special;
        assert(cur[k] == prev[k]);
    }
    if a.id == j && a.special {
        assert(cur[prev.len() as int] == a);
    }
    if has_special_with_id(cur, j) {
        let k = choose|k: int| 0 <= k < cur.len() && #[trigger] cur[k].id == j && cur[k].special;
        if k < prev.len() {
            assert(prev[k] == cur[k]);
        }
    }
}

} // verus!
