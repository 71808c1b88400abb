//! GGML tensor types and the tensors that quantization produces.

use crate::error::Error;
use crate::DType;
use vstd::prelude::*;

verus! {

/// Denotes the GGML Type
#[derive(Debug, Clone, Copy, PartialEq, Eq, Structural)]
pub enum GGMLType {
    F32,
    I32,
    I64,
    Q8_0,
    Q4K,
}

/// The number that GGML and GGUF use for each type.
pub open spec fn ggml_type_id(t: GGMLType) -> u32 {
    match t {
        GGMLType::F32 => 0,
        GGMLType::I32 => 26,
        GGMLType::I64 => 27,
        GGMLType::Q8_0 => 8,
        GGMLType::Q4K => 12,
    }
}

/// The name under which each type is shown.
pub open spec fn ggml_type_name(t: GGMLType) -> Seq<char> {
    match t {
        GGMLType::F32 => "F32"@,
        GGMLType::I32 => "I32"@,
        GGMLType::I64 => "I64"@,
        GGMLType::Q8_0 => "Q8_0"@,
        GGMLType::Q4K => "Q4_K"@,
    }
}

/// GGML's numbers of the types: F32 is 0, Q8_0 is 8, Q4_K is 12, I32 is 26
/// and I64 is 27, each under its own name.
pub proof fn lemma_ggml_type_numbers()
    ensures
        ggml_type_id(GGMLType::F32) == 0 && ggml_type_name(GGMLType::F32) == "F32"@,
        ggml_type_id(GGMLType::Q8_0) == 8 && ggml_type_name(GGMLType::Q8_0) == "Q8_0"@,
        ggml_type_id(GGMLType::Q4K) == 12 && ggml_type_name(GGMLType::Q4K) == "Q4_K"@,
        ggml_type_id(GGMLType::I32) == 26 && ggml_type_name(GGMLType::I32) == "I32"@,
        ggml_type_id(GGMLType::I64) == 27 && ggml_type_name(GGMLType::I64) == "I64"@,
{
}

impl GGMLType {
    /// The GGML number of this type, as stored in a GGUF tensor descriptor.
    pub fn type_id(&self) -> (r: u32)
        ensures
            r == ggml_type_id(*self),
    {
        match self {
            GGMLType::F32 => 0,
            GGMLType::I32 => 26,
            GGMLType::I64 => 27,
            GGMLType::Q8_0 => 8,
            GGMLType::Q4K => 12,
        }
    }

    /// The display name of this type.
    pub fn name(&self) -> (r: &'static str)
        ensures
            r@ == ggml_type_name(*self),
    {
        match self {
            GGMLType::F32 => "F32",
            GGMLType::I32 => "I32",
            GGMLType::I64 => "I64",
            GGMLType::Q8_0 => "Q8_0",
            GGMLType::Q4K => "Q4_K",
        }
    }

    /// The GGML type that stores tensors of `dtype` unchanged: `F32`, `I32` and
    /// `I64` have one; every other dtype is refused.
    pub fn try_from_dtype(dtype: DType) -> (r: Result<GGMLType, Error>)
        ensures
            dtype is F32 ==> r == Ok::<GGMLType, Error>(GGMLType::F32),
            dtype is I32 ==> r == Ok::<GGMLType, Error>(GGMLType::I32),
            dtype is I64 ==> r == Ok::<GGMLType, Error>(GGMLType::I64),
            !(dtype is F32 || dtype is I32 || dtype is I64) ==> r == Err::<GGMLType, Error>(
                Error::UnsupportedDtype(dtype),
            ),
    {
        match dtype {
            DType::F32 => Ok(GGMLType::F32),
            DType::I32 => Ok(GGMLType::I32),
            DType::I64 => Ok(GGMLType::I64),
            other => Err(Error::UnsupportedDtype(other)),
        }
    }
}

/// Tensor Data Post Quantization.
///
/// When a model is quantized, it creates a list of `QuantizedTensor`s for each layer in the model,
/// even if a layer was not quantized.
pub struct QuantizedTensor {
    /// Name of the tensor taken from the safetensor
    pub name: String,
    /// Standard GGUF tensor name
    pub gguf_name: String,
    /// Shape of the tensor
    pub shape: Vec<usize>,
    /// The quantized tensor in bytes
    pub data: Vec<u8>,
    /// Number of elements in the vector
    pub num_elements: usize,
    /// GGML type of the vector
    pub ggml_type: GGMLType,
}

} // verus!
