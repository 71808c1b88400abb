//! Little-endian encodings of the fixed-width integers that GGUF stores.

use byteorder::{ByteOrder, LittleEndian};
use vstd::prelude::*;

verus! {

/// The two bytes of `v`, least significant first.
pub open spec fn le_u16(v: u16) -> Seq<u8> {
    seq![(v % 256) as u8, (v / 256) as u8]
}

/// The four bytes of `v`, least significant first.
pub open spec fn le_u32(v: u32) -> Seq<u8> {
    le_u16((v % 0x1_0000) as u16) + le_u16((v / 0x1_0000) as u16)
}

/// The eight bytes of `v`, least significant first.
pub open spec fn le_u64(v: u64) -> Seq<u8> {
    le_u32((v % 0x1_0000_0000) as u32) + le_u32((v / 0x1_0000_0000) as u32)
}

/// The four bytes of the two's complement form of `v`, least significant first.
pub open spec fn le_i32(v: i32) -> Seq<u8> {
    le_u32(v as u32)
}

/// Two little-endian bytes read back as the number they encode.
pub proof fn lemma_le_u16_value(v: u16)
    ensures
        le_u16(v).len() == 2,
        le_u16(v)[0] + 256 * le_u16(v)[1] == v,
{
    assert(v == v % 256 + 256 * (v / 256)) by (nonlinear_arith);
}

/// byteorder's `LittleEndian::write_u16`: stores `v` in a two-byte buffer,
/// least significant byte first.
#[verifier::external_body]
fn u16_le_bytes(v: u16) -> (b: [u8; 2])
    ensures
        b@ == le_u16(v),
{
    let mut b = [0u8; 2];
    LittleEndian::write_u16(&mut b, v);
    b
}

/// byteorder's `LittleEndian::write_u32`: stores `v` in a four-byte buffer,
/// least significant byte first.
#[verifier::external_body]
fn u32_le_bytes(v: u32) -> (b: [u8; 4])
    ensures
        b@ == le_u32(v),
{
    let mut b = [0u8; 4];
    LittleEndian::write_u32(&mut b, v);
    b
}

/// byteorder's `LittleEndian::write_u64`: stores `v` in an eight-byte buffer,
/// least significant byte first.
#[verifier::external_body]
fn u64_le_bytes(v: u64) -> (b: [u8; 8])
    ensures
        b@ == le_u64(v),
{
    let mut b = [0u8; 8];
    LittleEndian::write_u64(&mut b, v);
    b
}

/// byteorder's `LittleEndian::write_i32`: stores the two's complement form of
/// `v` in a four-byte buffer, least significant byte first.
#[verifier::external_body]
fn i32_le_bytes(v: i32) -> (b: [u8; 4])
    ensures
        b@ == le_i32(v),
{
    let mut b = [0u8; 4];
    LittleEndian::write_i32(&mut b, v);
    b
}

/// Appends all of `bytes` to `out`.
pub fn push_bytes(out: &mut Vec<u8>, bytes: &[u8])
    ensures
        final(out)@ == old(out)@ + bytes@,
{
    let n = bytes.len();
    let mut i: usize = 0;
    while i < n
        invariant
            0 <= i <= n,
            n == bytes@.len(),
            out@ == old(out)@ + bytes@.subrange(0, i as int),
        decreases n - i,
    {
        out.push(bytes[i]);
        i = i + 1;
        assert(out@ == old(out)@ + bytes@.subrange(0, i as int));
    }
    assert(bytes@.subrange(0, n as int) == bytes@);
}

/// Appends `n` zero bytes to `out`.
pub fn push_zeros(out: &mut Vec<u8>, n: usize)
    ensures
        final(out)@ == old(out)@ + Seq::new(n as nat, |i: int| 0u8),
{
    let mut i: usize = 0;
    while i < n
        invariant
            0 <= i <= n,
            out@ == old(out)@ + Seq::new(i as nat, |k: int| 0u8),
        decreases n - i,
    {
        out.push(0u8);
        i = i + 1;
        assert(out@ == old(out)@ + Seq::new(i as nat, |k: int| 0u8));
    }
}

/// Appends the little-endian bytes of `v` to `out`.
pub fn push_u16(out: &mut Vec<u8>, v: u16)
    ensures
        final(out)@ == old(out)@ + le_u16(v),
{
    let b = u16_le_bytes(v);
    push_bytes(out, &b);
}

/// Appends the little-endian bytes of `v` to `out`.
pub fn push_u32(out: &mut Vec<u8>, v: u32)
    ensures
        final(out)@ == old(out)@ + le_u32(v),
{
    let b = u32_le_bytes(v);
    push_bytes(out, &b);
}

/// Appends the little-endian bytes of `v` to `out`.
pub fn push_u64(out: &mut Vec<u8>, v: u64)
    ensures
        final(out)@ == old(out)@ + le_u64(v),
{
    let b = u64_le_bytes(v);
    push_bytes(out, &b);
}

/// Appends the little-endian two's complement bytes of `v` to `out`.
pub fn push_i32(out: &mut Vec<u8>, v: i32)
    ensures
        final(out)@ == old(out)@ + le_i32(v),
{
    let b = i32_le_bytes(v);
    push_bytes(out, &b);
}

} // verus!
