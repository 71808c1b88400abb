//! The files of a HuggingFace model directory that quantization reads.

use crate::error::Error;
use crate::text::{is_prefix, owned};
use vstd::prelude::*;

verus! {

/// Files in the Huggingface model directory that are needed
/// to quantize the model.
pub struct ModelDir {
    /// Safetensors file that contains the moels weights and tensor metadata
    /// Currently supports only unsharded models.
    pub safetensors_path: String,
    /// Path to the `config.json` file in the model directory
    pub config_path: String,
    /// Path to the `tokenizer.json` file in the model directory
    pub tokenizer_path: String,
    /// Path to the `tokenizer_config.json` file in the model directory
    pub tokenizer_config_path: String,
}

/// What the file system shows of a model directory.
pub struct DirListing {
    /// The path is a directory.
    pub is_dir: bool,
    /// It holds `model.safetensors`.
    pub has_safetensors: bool,
    /// It holds `model.safetensors.index.json`.
    pub has_safetensors_index: bool,
    /// It holds `config.json`.
    pub has_config: bool,
    /// It holds `tokenizer.json`.
    pub has_tokenizer: bool,
}

/// A path separator on some platform: a slash, or a backslash on Windows.
pub open spec fn is_path_sep(c: char) -> bool {
    c == '/' || c == '\\'
}

/// A Windows verbatim path (two backslashes, `?` and a backslash), whose
/// components are rebuilt when a path is pushed onto it.
pub open spec fn is_verbatim(dir: Seq<char>) -> bool {
    is_prefix("\\\\?\\"@, dir)
}

/// A plain file name: not empty, and free of separators and of the `:` of a
/// drive prefix.
pub open spec fn is_plain_file_name(file: Seq<char>) -> bool {
    &&& file.len() > 0
    &&& forall|i: int| 0 <= i < file.len() ==> !is_path_sep(#[trigger] file[i]) && file[i] != ':'
}

/// `path` is the file name `file` joined onto the directory `dir`: the two
/// are written one after the other, with one separator between them unless
/// `dir` is empty or already ends with `/`; where `dir` ends with anything
/// but a separator or `:`, a separator is put between them.
pub open spec fn is_dir_file(path: Seq<char>, dir: Seq<char>, file: Seq<char>) -> bool {
    &&& path == dir + file || path == dir + seq!['/'] + file || path == dir + seq!['\\'] + file
    &&& (dir.len() == 0 || dir.last() == '/') ==> path == dir + file
    &&& (dir.len() > 0 && !is_path_sep(dir.last()) && dir.last() != ':') ==> path != dir + file
}

/// std's `Path::join` of a directory and a plain file name, as a string.
/// Pushing a relative path with no prefix onto a directory appends it, after
/// a separator where the directory does not end in one (none after an empty
/// path or a bare drive such as `C:`); which separator is the platform's.
/// Of a Windows verbatim directory nothing is stated, since its components
/// are rebuilt.
#[verifier::external_body]
fn join_path(dir: &str, file: &str) -> (r: String)
    requires
        is_plain_file_name(file@),
    ensures
        !is_verbatim(dir@) ==> is_dir_file(r@, dir@, file@),
{
    std::path::Path::new(dir).join(file).to_string_lossy().into_owned()
}

/// The names of the files of a model directory are plain file names.
proof fn lemma_plain_model_file_names()
    ensures
        is_plain_file_name("model.safetensors"@),
        is_plain_file_name("config.json"@),
        is_plain_file_name("tokenizer.json"@),
        is_plain_file_name("tokenizer_config.json"@),
{
    reveal_strlit("model.safetensors");
    reveal_strlit("config.json");
    reveal_strlit("tokenizer.json");
    reveal_strlit("tokenizer_config.json");
}

impl ModelDir {
    /// Resolve the paths to the files inside the Huggingface model directory that are needed
    /// to quantize the model.
    ///
    /// Fails where the path is not a directory, where the model is sharded
    /// (`model.safetensors.index.json` instead of `model.safetensors`), and
    /// where `model.safetensors`, `config.json` or `tokenizer.json` is missing,
    /// checked in that order; `tokenizer_config.json` may be missing.
    pub fn resolve(dir: &str, listing: &DirListing) -> (r: Result<ModelDir, Error>)
        ensures
            !listing.is_dir ==> (r matches Err(Error::NotADirectory(d)) && d@ == dir@),
            listing.is_dir && !listing.has_safetensors && listing.has_safetensors_index
                ==> (r matches Err(Error::ShardedModel(d)) && d@ == dir@),
            listing.is_dir && !listing.has_safetensors && !listing.has_safetensors_index
                ==> (r matches Err(Error::MissingSafetensors(d)) && d@ == dir@),
            listing.is_dir && listing.has_safetensors && !listing.has_config
                ==> (r matches Err(Error::MissingConfig(d)) && d@ == dir@),
            listing.is_dir && listing.has_safetensors && listing.has_config
                && !listing.has_tokenizer ==> (r matches Err(Error::MissingTokenizer(d)) && d@ == dir@),
            r is Ok <==> listing.is_dir && listing.has_safetensors && listing.has_config
                && listing.has_tokenizer,
            r matches Ok(m) ==> !is_verbatim(dir@) ==> {
                &&& is_dir_file(m.safetensors_path@, dir@, "model.safetensors"@)
                &&& is_dir_file(m.config_path@, dir@, "config.json"@)
                &&& is_dir_file(m.tokenizer_path@, dir@, "tokenizer.json"@)
                &&& is_dir_file(m.tokenizer_config_path@, dir@, "tokenizer_config.json"@)
            },
    {
        if !listing.is_dir {
            return Err(Error::NotADirectory(owned(dir)));
        }
        if !listing.has_safetensors {
            if listing.has_safetensors_index {
                return Err(Error::ShardedModel(owned(dir)));
            }
            return Err(Error::MissingSafetensors(owned(dir)));
        }
        if !listing.has_config {
            return Err(Error::MissingConfig(owned(dir)));
        }
        if !listing.has_tokenizer {
            return Err(Error::MissingTokenizer(owned(dir)));
        }
        proof {
            lemma_plain_model_file_names();
        }
        Ok(
            ModelDir {
                safetensors_path: join_path(dir, "model.safetensors"),
                config_path: join_path(dir, "config.json"),
                tokenizer_path: join_path(dir, "tokenizer.json"),
                tokenizer_config_path: join_path(dir, "tokenizer_config.json"),
            },
        )
    }
}

} // verus!
