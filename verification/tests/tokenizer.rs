use erissery_core::error::Error;
use erissery_core::tokenizer::{
    check_tokenizer_model, load_tokenizer_from_parsed, lookup_id, AddedToken, MergeEntry, TokenRef, TokenizerConfigJson,
    TokenizerJson, TokenizerModel,
};

fn tokenizer(model_type: &str) -> TokenizerJson {
    TokenizerJson {
        model: TokenizerModel {
            model_type: model_type.to_string(),
            vocab: vec![("a".to_string(), 0), ("b".to_string(), 2), ("<s>".to_string(), 1)],
            merges: vec![
                MergeEntry::Pair("a".to_string(), "b".to_string()),
                MergeEntry::Combined("b a".to_string()),
            ],
        },
        added_tokens: vec![
            AddedToken { id: 5, content: "<pad>".to_string(), special: true },
            AddedToken { id: 2, content: "B".to_string(), special: false },
        ],
    }
}

fn config() -> TokenizerConfigJson {
    TokenizerConfigJson {
        chat_template: Some("tmpl".to_string()),
        bos_token: Some(TokenRef::Plain("<s>".to_string())),
        eos_token: Some(TokenRef::Detailed { content: "<pad>".to_string() }),
        pad_token: Some(TokenRef::Plain("missing".to_string())),
        unk_token: None,
    }
}

#[test]
fn builds_tokens_from_vocab_and_added_tokens() {
    let info = load_tokenizer_from_parsed(&tokenizer("BPE"), &config(), 8).ok().unwrap();
    assert_eq!(info.tokens, vec!["a", "<s>", "B", "", "", "<pad>", "", ""]);
    assert_eq!(info.token_types, vec![1, 1, 1, 1, 1, 3, 1, 1]);
    assert_eq!(info.merges, vec!["a b", "b a"]);
    assert_eq!(info.bos_token_id, Some(1));
    assert_eq!(info.eos_token_id, Some(5));
    assert_eq!(info.pad_token_id, None);
    assert_eq!(info.unk_token_id, None);
    assert_eq!(info.chat_template.as_deref(), Some("tmpl"));
}

#[test]
fn token_list_grows_for_added_tokens_beyond_vocab_size() {
    let info = load_tokenizer_from_parsed(&tokenizer("BPE"), &TokenizerConfigJson::empty(), 2)
        .ok()
        .unwrap();
    assert_eq!(info.tokens.len(), 6);
    assert_eq!(info.token_types.len(), 6);
    assert_eq!(info.bos_token_id, None);
    assert_eq!(info.chat_template, None);
}

#[test]
fn refuses_non_bpe_tokenizers() {
    match load_tokenizer_from_parsed(&tokenizer("Unigram"), &config(), 8) {
        Err(Error::UnsupportedTokenizerModel(t)) => assert_eq!(t, "Unigram"),
        _ => panic!("expected UnsupportedTokenizerModel"),
    }
}

#[test]
fn empty_vocab_still_has_one_token() {
    let t = TokenizerJson {
        model: TokenizerModel { model_type: "BPE".to_string(), vocab: vec![], merges: vec![] },
        added_tokens: vec![],
    };
    let info = load_tokenizer_from_parsed(&t, &TokenizerConfigJson::empty(), 0).ok().unwrap();
    assert_eq!(info.tokens, vec![""]);
    assert_eq!(info.token_types, vec![1]);
}

#[test]
fn lookup_prefers_vocabulary_over_added_tokens() {
    let t = tokenizer("BPE");
    let r = Some(TokenRef::Plain("b".to_string()));
    let added = vec![AddedToken { id: 9, content: "b".to_string(), special: true }];
    assert_eq!(lookup_id(&t.model.vocab, &r, &added), Some(2));
    let r = Some(TokenRef::Plain("<pad>".to_string()));
    assert_eq!(lookup_id(&t.model.vocab, &r, &t.added_tokens), Some(5));
    assert_eq!(lookup_id(&t.model.vocab, &None, &t.added_tokens), None);
}

#[test]
fn merge_entries_join_with_a_space() {
    assert_eq!(MergeEntry::Pair("Ġ".to_string(), "t".to_string()).to_gguf_string(), "Ġ t");
    assert_eq!(MergeEntry::Combined("x y".to_string()).to_gguf_string(), "x y");
    assert_eq!(TokenRef::Detailed { content: "<|im_end|>".to_string() }.content(), "<|im_end|>");
}

#[test]
fn non_bpe_tokenizer_is_refused_whatever_its_ids() {
    let t = TokenizerJson {
        model: TokenizerModel {
            model_type: "WordPiece".to_string(),
            vocab: vec![("x".to_string(), u32::MAX)],
            merges: vec![],
        },
        added_tokens: vec![],
    };
    assert!(matches!(
        check_tokenizer_model(&t),
        Err(Error::UnsupportedTokenizerModel(_))
    ));
    match load_tokenizer_from_parsed(&t, &TokenizerConfigJson::empty(), 4) {
        Err(Error::UnsupportedTokenizerModel(m)) => assert_eq!(m, "WordPiece"),
        _ => panic!("expected UnsupportedTokenizerModel"),
    }
}
