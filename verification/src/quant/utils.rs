//! Helpers shared by the quantization strategies. Values of 32-bit floats are
//! held by their IEEE-754 bit patterns.

use crate::bytes::le_u32;
use vstd::prelude::*;

verus! {

/// The number of zeros that make `len` a multiple of `block_size`.
pub open spec fn pad_len(len: int, block_size: int) -> int {
    if len % block_size == 0 {
        0
    } else {
        block_size - len % block_size
    }
}

/// Pad the given `data`, to ensure that the number of values is a multiple of `block_size`.
///
/// The data is padded with the bit pattern of `0.0f32` (all zero bits).
pub fn pad_to_block_size(data: &[u32], block_size: usize) -> (r: Vec<u32>)
    requires
        block_size > 0,
        data@.len() + block_size <= usize::MAX,
    ensures
        r@ == data@ + Seq::new(pad_len(data@.len() as int, block_size as int) as nat, |i: int| 0u32),
        (r@.len() as int) % (block_size as int) == 0,
        data@.len() <= r@.len() < data@.len() + block_size,
{
    let remainder = data.len() % block_size;
    let mut padded: Vec<u32> = Vec::with_capacity(data.len());
    let mut i: usize = 0;
    while i < data.len()
        invariant
            0 <= i <= data.len(),
            padded@ == data@.take(i as int),
        decreases data.len() - i,
    {
        padded.push(data[i]);
        i = i + 1;
    }
    assert(data@.take(data.len() as int) == data@);
    if remainder == 0 {
        assert(padded@ =~= data@ + Seq::new(0, |i: int| 0u32));
        return padded;
    }
    let pad_size = block_size - remainder;
    let mut k: usize = 0;
    while k < pad_size
        invariant
            0 <= k <= pad_size,
            padded@ == data@ + Seq::new(k as nat, |i: int| 0u32),
        decreases pad_size - k,
    {
        padded.push(0u32);
        k = k + 1;
        assert(padded@ =~= data@ + Seq::new(k as nat, |i: int| 0u32));
    }
    assert(((data@.len() + pad_size) as int) % (block_size as int) == 0) by (nonlinear_arith)
        requires
            remainder == (data@.len() as int) % (block_size as int),
            pad_size == block_size - remainder,
            block_size > 0,
    {
        vstd::arithmetic::div_mod::lemma_fundamental_div_mod(data@.len() as int, block_size as int);
        vstd::arithmetic::div_mod::lemma_mod_multiples_basic(data@.len() as int / block_size as int + 1, block_size as int);
    }
    padded
}

/// The value of four bytes read least significant first.
pub open spec fn le_value(b0: u8, b1: u8, b2: u8, b3: u8) -> int {
    b0 + 256 * b1 + 65536 * b2 + 16777216 * b3
}

/// Reading four bytes least significant first undoes `le_u32`.
proof fn lemma_read_le_u32(b0: u8, b1: u8, b2: u8, b3: u8)
    ensures
        le_value(b0, b1, b2, b3) <= u32::MAX,
        le_u32(le_value(b0, b1, b2, b3) as u32) == seq![b0, b1, b2, b3],
{
    let v = le_value(b0, b1, b2, b3) as u32;
    assert(v % 0x1_0000 == b0 + 256 * b1) by (nonlinear_arith)
        requires v == b0 + 256 * b1 + 65536 * b2 + 16777216 * b3, b0 < 256, b1 < 256, b2 < 256, b3 < 256;
    assert(v / 0x1_0000 == b2 + 256 * b3) by (nonlinear_arith)
        requires v == b0 + 256 * b1 + 65536 * b2 + 16777216 * b3, b0 < 256, b1 < 256, b2 < 256, b3 < 256;
    let lo = (v % 0x1_0000) as u16;
    let hi = (v / 0x1_0000) as u16;
    assert(lo % 256 == b0 && lo / 256 == b1) by (nonlinear_arith)
        requires lo == b0 + 256 * b1, b0 < 256, b1 < 256;
    assert(hi % 256 == b2 && hi / 256 == b3) by (nonlinear_arith)
        requires hi == b2 + 256 * b3, b2 < 256, b3 < 256;
    assert(le_u32(v) =~= seq![b0, b1, b2, b3]);
}

/// Converts the little-endian byte representations of f32s into their bit
/// patterns; a trailing part shorter than four bytes is ignored.
pub fn f32_bytes_to_f32(bytes: &[u8]) -> (r: Vec<u32>)
    ensures
        r@.len() == bytes@.len() / 4,
        forall|i: int|
            0 <= i < r@.len() ==> le_u32(#[trigger] r@[i]) == bytes@.subrange(4 * i, 4 * i + 4),
{
    let len = bytes.len();
    let n = len / 4;
    let mut out: Vec<u32> = Vec::with_capacity(n);
    let mut i: usize = 0;
    while i < n
        invariant
            0 <= i <= n,
            n == bytes@.len() / 4,
            n == len / 4,
            len == bytes@.len(),
            out@.len() == i,
            forall|j: int|
                0 <= j < i ==> le_u32(#[trigger] out@[j]) == bytes@.subrange(4 * j, 4 * j + 4),
        decreases n - i,
    {
        assert(4 * i + 4 <= len) by (nonlinear_arith)
            requires
                i < n,
                n == len / 4,
        {}
        let k = 4 * i;
        let (b0, b1, b2, b3) = (bytes[k], bytes[k + 1], bytes[k + 2], bytes[k + 3]);
        proof {
            lemma_read_le_u32(b0, b1, b2, b3);
        }
        let v = b0 as u32 + 256 * (b1 as u32) + 65536 * (b2 as u32) + 16777216 * (b3 as u32);
        assert(bytes@.subrange(4 * i, 4 * i + 4) =~= seq![b0, b1, b2, b3]);
        out.push(v);
        i = i + 1;
    }
    out
}

} // verus!
