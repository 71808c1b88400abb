//! Layout constants of the Q4_K quantization strategy.

use vstd::prelude::*;

verus! {

/// Size of the base quantization block from which Q4_K sub-blocks are cut.
pub const BASE_QUANTIZATION_BLOCK_SIZE: usize = 32;

/// Number of elements in one Q4_K superblock
pub const K_QUANT_BLOCK_N_ELEMENTS: usize = 256;

/// Number of sub blocks in each superblock
pub const K_SCALE_COUNT: usize = K_QUANT_BLOCK_N_ELEMENTS / BASE_QUANTIZATION_BLOCK_SIZE;

/// Number of bytes needed to store `K_SCALE_COUNT` scales + `K_SCALE_COUNT` mins, 6 bits each
pub const K_SCALE_SIZE: usize = (2 * K_SCALE_COUNT * 6) / 8;

/// Number of bytes for the 4bit data
pub const K_DATA_SIZE: usize = K_QUANT_BLOCK_N_ELEMENTS / 2;

/// Total Bytes per superblock - Superblock scale (2 bytes) + Superblock min (2 bytes) + Scale Size + Data Size
pub const Q4_K_BLOCK_SIZE: usize = 2 + 2 + K_SCALE_SIZE + K_DATA_SIZE;

} // verus!
