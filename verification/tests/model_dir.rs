use erissery_core::error::Error;
use erissery_core::model_dir::{DirListing, ModelDir};

fn listing(is_dir: bool, st: bool, index: bool, config: bool, tok: bool) -> DirListing {
    DirListing {
        is_dir,
        has_safetensors: st,
        has_safetensors_index: index,
        has_config: config,
        has_tokenizer: tok,
    }
}

#[test]
fn resolves_the_model_files() {
    let m = ModelDir::resolve("/hf-model", &listing(true, true, false, true, true)).ok().unwrap();
    assert_eq!(m.safetensors_path, "/hf-model/model.safetensors");
    assert_eq!(m.config_path, "/hf-model/config.json");
    assert_eq!(m.tokenizer_path, "/hf-model/tokenizer.json");
    assert_eq!(m.tokenizer_config_path, "/hf-model/tokenizer_config.json");
}

#[test]
fn reports_missing_files_in_order() {
    assert!(matches!(
        ModelDir::resolve("d", &listing(false, true, false, true, true)),
        Err(Error::NotADirectory(_))
    ));
    assert!(matches!(
        ModelDir::resolve("d", &listing(true, false, true, false, false)),
        Err(Error::ShardedModel(_))
    ));
    assert!(matches!(
        ModelDir::resolve("d", &listing(true, false, false, true, true)),
        Err(Error::MissingSafetensors(_))
    ));
    assert!(matches!(
        ModelDir::resolve("d", &listing(true, true, false, false, false)),
        Err(Error::MissingConfig(_))
    ));
    match ModelDir::resolve("d", &listing(true, true, false, true, false)) {
        Err(Error::MissingTokenizer(d)) => assert_eq!(d, "d"),
        _ => panic!("expected MissingTokenizer"),
    }
}

#[test]
fn joins_without_doubling_or_inventing_separators() {
    let m = ModelDir::resolve("/hf-model/", &listing(true, true, false, true, true)).ok().unwrap();
    assert_eq!(m.config_path, "/hf-model/config.json");
    let m = ModelDir::resolve("", &listing(true, true, false, true, true)).ok().unwrap();
    assert_eq!(m.config_path, "config.json");
    assert_eq!(m.tokenizer_config_path, "tokenizer_config.json");
}
