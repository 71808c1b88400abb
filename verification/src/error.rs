//! The errors that the library reports.

use crate::DType;
use safetensors::SafeTensorError;
use vstd::prelude::*;

verus! {

/// Why an operation of the library failed.
#[derive(Debug)]
pub enum Error {
    /// A tensor's dtype has no GGML counterpart, or cannot be decoded to f32.
    UnsupportedDtype(DType),
    /// A tensor name has no standard GGUF name.
    UnmappedTensorName(String),
    /// The number of decoded values differs from the number that the shape gives.
    ElementCountMismatch { name: String, expected: usize, decoded: usize, dtype: DType },
    /// `config.json` names a model type whose metadata is not mapped.
    UnsupportedModelType(String),
    /// The model path is not a directory.
    NotADirectory(String),
    /// The model directory holds a sharded model.
    ShardedModel(String),
    /// The model directory has no `model.safetensors`.
    MissingSafetensors(String),
    /// The model directory has no `config.json`.
    MissingConfig(String),
    /// The model directory has no `tokenizer.json`.
    MissingTokenizer(String),
    /// `tokenizer.json` describes a tokenizer model other than BPE.
    UnsupportedTokenizerModel(String),
    /// A size or an offset of the GGUF file does not fit in 64 bits.
    SizeOverflow,
    /// The bytes are not a valid safetensors file.
    InvalidSafetensors(SafeTensorError),
    /// The header of a safetensors file declares more data than can be
    /// addressed.
    SafetensorsDataOverflow,
}

} // verus!
