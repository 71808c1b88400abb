//! Value type tags of GGUF metadata.

use vstd::prelude::*;

verus! {

/// Tag of an unsigned 32-bit value.
pub const GGUF_TYPE_UINT32: u32 = 4;

/// Tag of a signed 32-bit value.
pub const GGUF_TYPE_INT32: u32 = 5;

/// Tag of a 32-bit float.
pub const GGUF_TYPE_FLOAT32: u32 = 6;

/// Tag of a length-prefixed UTF-8 string.
pub const GGUF_TYPE_STRING: u32 = 8;

/// Tag of an array.
pub const GGUF_TYPE_ARRAY: u32 = 9;

/// Tag of an unsigned 64-bit value.
pub const GGUF_TYPE_UINT64: u32 = 10;

} // verus!
