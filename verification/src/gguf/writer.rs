//! Serialization of a GGUF file: header, metadata, tensor descriptors and the
//! aligned tensor data section.
//!
//! Reference: https://github.com/ggml-org/ggml/blob/master/docs/gguf.md#file-structure

use crate::bytes::{le_i32, le_u32, le_u64, push_bytes, push_i32, push_u32, push_u64, push_zeros};
use crate::error::Error;
use crate::ggml::{ggml_type_id, QuantizedTensor};
use crate::gguf::kv::{kvs_view, GGUFValue, GGUFValueView};
use crate::gguf::types::{
    GGUF_TYPE_ARRAY, GGUF_TYPE_FLOAT32, GGUF_TYPE_INT32, GGUF_TYPE_STRING, GGUF_TYPE_UINT32,
    GGUF_TYPE_UINT64,
};
use vstd::arithmetic::div_mod::{lemma_fundamental_div_mod, lemma_mod_bound, lemma_mod_multiples_basic};
use vstd::arithmetic::power2::{lemma2_to64, lemma_pow2_pos, pow2};
use vstd::bits::{low_bits_mask, lemma_u64_low_bits_mask_is_mod};
use vstd::prelude::*;
use vstd::utf8::encode_utf8;

verus! {

/// "GGUF" read as a little-endian `u32`.
pub const GGUF_LE_MAGIC_NUMBER: u32 = 0x46554747;

/// The format version written into the header: version 3 of the GGUF
/// specification.
pub const GGUF_VERSION: u32 = 3;

/// Alignment of the tensor data section and of every tensor in it.
pub const GGUF_DEFAULT_ALIGNMENT: u64 = 32;

/// `n` zero bytes.
pub open spec fn zeros(n: int) -> Seq<u8> {
    Seq::new(n as nat, |i: int| 0u8)
}

/// A GGUF string: its UTF-8 byte length as a little-endian `u64`, then the bytes.
pub open spec fn gguf_str(s: Seq<char>) -> Seq<u8> {
    le_u64(encode_utf8(s).len() as u64) + encode_utf8(s)
}

/// The number that eight bytes encode, least significant byte first.
pub open spec fn le_u64_value(b: Seq<u8>) -> int {
    b[0] + 256 * b[1] + 0x1_0000 * b[2] + 0x100_0000 * b[3] + 0x1_0000_0000 * b[4]
        + 0x100_0000_0000 * b[5] + 0x1_0000_0000_0000 * b[6] + 0x100_0000_0000_0000 * b[7]
}

/// Reading eight little-endian bytes gives back the number they encode.
pub proof fn lemma_le_u64_value(v: u64)
    ensures
        le_u64(v).len() == 8,
        le_u64_value(le_u64(v)) == v,
{
    let lo = (v % 0x1_0000_0000) as u32;
    let hi = (v / 0x1_0000_0000) as u32;
    lemma_le_u32_value(lo);
    lemma_le_u32_value(hi);
    let b = le_u64(v);
    assert(b =~= le_u32(lo) + le_u32(hi));
    assert(v == lo + 0x1_0000_0000 * hi) by (nonlinear_arith)
        requires
            lo == v % 0x1_0000_0000,
            hi == v / 0x1_0000_0000,
    ;
}

/// Reading four little-endian bytes gives back the number they encode.
proof fn lemma_le_u32_value(w: u32)
    ensures
        le_u32(w).len() == 4,
        le_u32(w)[0] + 256 * le_u32(w)[1] + 0x1_0000 * le_u32(w)[2] + 0x100_0000 * le_u32(w)[3]
            == w,
{
    let lo = (w % 0x1_0000) as u16;
    let hi = (w / 0x1_0000) as u16;
    assert(lo == lo % 256 + 256 * (lo / 256)) by (nonlinear_arith);
    assert(hi == hi % 256 + 256 * (hi / 256)) by (nonlinear_arith);
    assert(w == lo + 0x1_0000 * hi) by (nonlinear_arith)
        requires
            lo == w % 0x1_0000,
            hi == w / 0x1_0000,
    ;
    assert(le_u32(w) =~= seq![(lo % 256) as u8, (lo / 256) as u8, (hi % 256) as u8, (hi / 256) as u8]);
}

/// A GGUF string reads back: its first eight bytes give, least significant
/// first, the number of bytes that follow them, and those bytes are the
/// string's UTF-8 encoding.
pub proof fn lemma_gguf_str_reads_back(s: Seq<char>)
    requires
        encode_utf8(s).len() <= u64::MAX,
    ensures
        gguf_str(s).len() >= 8,
        le_u64_value(gguf_str(s).subrange(0, 8)) == gguf_str(s).len() - 8,
        gguf_str(s).subrange(8, gguf_str(s).len() as int) == encode_utf8(s),
{
    let n = encode_utf8(s).len() as u64;
    lemma_le_u64_value(n);
    let g = gguf_str(s);
    assert(g.subrange(0, 8) =~= le_u64(n));
    assert(g.subrange(8, g.len() as int) =~= encode_utf8(s));
}

/// The GGUF strings of `items`, one after the other.
pub open spec fn strs_bytes(items: Seq<Seq<char>>) -> Seq<u8>
    decreases items.len(),
{
    if items.len() == 0 {
        Seq::empty()
    } else {
        strs_bytes(items.drop_last()) + gguf_str(items.last())
    }
}

/// The little-endian forms of `items`, one after the other.
pub open spec fn i32s_bytes(items: Seq<i32>) -> Seq<u8>
    decreases items.len(),
{
    if items.len() == 0 {
        Seq::empty()
    } else {
        i32s_bytes(items.drop_last()) + le_i32(items.last())
    }
}

/// A metadata value: its type tag, then its payload. An array carries the tag of
/// its elements and its length before the elements.
pub open spec fn value_bytes(v: GGUFValueView) -> Seq<u8> {
    match v {
        GGUFValueView::U32(x) => le_u32(GGUF_TYPE_UINT32) + le_u32(x),
        GGUFValueView::U64(x) => le_u32(GGUF_TYPE_UINT64) + le_u64(x),
        GGUFValueView::F32(bits) => le_u32(GGUF_TYPE_FLOAT32) + le_u32(bits),
        GGUFValueView::String(s) => le_u32(GGUF_TYPE_STRING) + gguf_str(s),
        GGUFValueView::ArrayString(items) => le_u32(GGUF_TYPE_ARRAY) + le_u32(GGUF_TYPE_STRING)
            + le_u64(items.len() as u64) + strs_bytes(items),
        GGUFValueView::ArrayI32(items) => le_u32(GGUF_TYPE_ARRAY) + le_u32(GGUF_TYPE_INT32)
            + le_u64(items.len() as u64) + i32s_bytes(items),
    }
}

/// A key/value pair: the key as a GGUF string, then the value.
pub open spec fn kv_bytes(key: Seq<char>, v: GGUFValueView) -> Seq<u8> {
    gguf_str(key) + value_bytes(v)
}

/// All key/value pairs, in order.
pub open spec fn kvs_bytes(kvs: Seq<(Seq<char>, GGUFValueView)>) -> Seq<u8>
    decreases kvs.len(),
{
    if kvs.len() == 0 {
        Seq::empty()
    } else {
        kvs_bytes(kvs.drop_last()) + kv_bytes(kvs.last().0, kvs.last().1)
    }
}

/// The least multiple of `a` that is at least `x`.
pub open spec fn align_up_spec(x: int, a: int) -> int {
    ((x + a - 1) / a) * a
}

/// `a` is a power of two that fits in 64 bits.
pub open spec fn is_pow2_u64(a: u64) -> bool {
    exists|n: nat| n < 64 && a == pow2(n)
}

/// The length of the data section that holds `ts`: each tensor's data starts
/// at an aligned offset, and the section ends aligned.
pub open spec fn data_end(ts: Seq<QuantizedTensor>, a: int) -> int
    decreases ts.len(),
{
    if ts.len() == 0 {
        0
    } else {
        align_up_spec(data_end(ts.drop_last(), a) + ts.last().data@.len(), a)
    }
}

/// Offset of the data of `ts[i]` from the start of the data section.
pub open spec fn data_offset(ts: Seq<QuantizedTensor>, i: int, a: int) -> int {
    data_end(ts.take(i), a)
}

/// Every offset, and every end of a tensor's data rounded up, fits in a `u64`.
pub open spec fn offsets_fit(ts: Seq<QuantizedTensor>, a: int) -> bool {
    forall|i: int|
        0 <= i < ts.len() ==> #[trigger] data_offset(ts, i, a) + ts[i].data@.len() + a
            <= u64::MAX
}

/// The offsets of all tensors, as stored in their descriptors.
pub open spec fn offsets_u64(ts: Seq<QuantizedTensor>, a: int) -> Seq<u64> {
    Seq::new(ts.len(), |i: int| data_offset(ts, i, a) as u64)
}

/// The dimensions of a shape, each as a little-endian `u64`.
pub open spec fn dims_bytes(shape: Seq<usize>) -> Seq<u8>
    decreases shape.len(),
{
    if shape.len() == 0 {
        Seq::empty()
    } else {
        dims_bytes(shape.drop_last()) + le_u64(shape.last() as u64)
    }
}

/// A tensor descriptor: standard name, number of dimensions, the dimensions,
/// GGML type and the offset of its data.
pub open spec fn descriptor_bytes(t: QuantizedTensor, offset: u64) -> Seq<u8> {
    gguf_str(t.gguf_name@) + le_u32(t.shape@.len() as u32) + dims_bytes(t.shape@) + le_u32(
        ggml_type_id(t.ggml_type),
    ) + le_u64(offset)
}

/// The descriptors of the tensors that have an offset.
pub open spec fn descs_bytes(ts: Seq<QuantizedTensor>, offs: Seq<u64>) -> Seq<u8>
    decreases ts.len(),
{
    if ts.len() == 0 {
        Seq::empty()
    } else if ts.len() > offs.len() {
        descs_bytes(ts.drop_last(), offs)
    } else {
        descs_bytes(ts.drop_last(), offs) + descriptor_bytes(ts.last(), offs[ts.len() - 1])
    }
}

/// Tensors without an offset add no descriptor.
proof fn lemma_descs_truncate(ts: Seq<QuantizedTensor>, offs: Seq<u64>)
    requires
        ts.len() >= offs.len(),
    ensures
        descs_bytes(ts, offs) == descs_bytes(ts.take(offs.len() as int), offs),
    decreases ts.len(),
{
    if ts.len() == offs.len() {
        assert(ts.take(offs.len() as int) == ts);
    } else {
        lemma_descs_truncate(ts.drop_last(), offs);
        assert(ts.drop_last().take(offs.len() as int) == ts.take(offs.len() as int));
    }
}

/// Everything before the padding that aligns the data section.
pub open spec fn header_prefix(
    kvs: Seq<(Seq<char>, GGUFValueView)>,
    ts: Seq<QuantizedTensor>,
    a: int,
) -> Seq<u8> {
    le_u32(GGUF_LE_MAGIC_NUMBER) + le_u32(GGUF_VERSION) + le_u64(ts.len() as u64) + le_u64(
        kvs.len() as u64,
    ) + kvs_bytes(kvs) + descs_bytes(ts, offsets_u64(ts, a))
}

/// The whole header, zero-padded to the alignment.
pub open spec fn gguf_header(kvs: Seq<(Seq<char>, GGUFValueView)>, ts: Seq<QuantizedTensor>, a: int) -> Seq<u8> {
    let p = header_prefix(kvs, ts, a);
    p + zeros(align_up_spec(p.len() as int, a) - p.len())
}

/// The header begins with the magic bytes `GGUF`, then version 3, then the
/// number of tensors and the number of key/value pairs, each read back from
/// its little-endian bytes; the key/value pairs follow from byte 24.
pub proof fn lemma_header_fields(kvs: Seq<(Seq<char>, GGUFValueView)>, ts: Seq<QuantizedTensor>, a: int)
    requires
        ts.len() <= u64::MAX,
        kvs.len() <= u64::MAX,
    ensures
        ({
            let h = gguf_header(kvs, ts, a);
            &&& h.len() >= 24
            &&& h.subrange(0, 4) == seq![0x47u8, 0x47u8, 0x55u8, 0x46u8]
            &&& h[4] + 256 * h[5] + 0x1_0000 * h[6] + 0x100_0000 * h[7] == 3
            &&& le_u64_value(h.subrange(8, 16)) == ts.len()
            &&& le_u64_value(h.subrange(16, 24)) == kvs.len()
            &&& h.subrange(24, 24 + kvs_bytes(kvs).len() as int) == kvs_bytes(kvs)
        }),
{
    let h = gguf_header(kvs, ts, a);
    let p = header_prefix(kvs, ts, a);
    lemma_le_u32_value(GGUF_LE_MAGIC_NUMBER);
    lemma_le_u32_value(GGUF_VERSION);
    lemma_le_u64_value(ts.len() as u64);
    lemma_le_u64_value(kvs.len() as u64);
    assert(h.subrange(0, p.len() as int) =~= p);
    assert(p.subrange(0, 4) =~= le_u32(GGUF_LE_MAGIC_NUMBER));
    assert(le_u32(GGUF_LE_MAGIC_NUMBER) =~= seq![0x47u8, 0x47u8, 0x55u8, 0x46u8]);
    assert(p.subrange(4, 8) =~= le_u32(GGUF_VERSION));
    assert(p.subrange(8, 16) =~= le_u64(ts.len() as u64));
    assert(p.subrange(16, 24) =~= le_u64(kvs.len() as u64));
    assert(p.subrange(24, 24 + kvs_bytes(kvs).len() as int) =~= kvs_bytes(kvs));
    assert(h.subrange(0, 4) =~= p.subrange(0, 4));
    assert(h.subrange(8, 16) =~= p.subrange(8, 16));
    assert(h.subrange(16, 24) =~= p.subrange(16, 24));
    assert(h.subrange(24, 24 + kvs_bytes(kvs).len() as int) =~= p.subrange(24, 24 + kvs_bytes(kvs).len() as int));
    assert(h[4] == p[4] && h[5] == p[5] && h[6] == p[6] && h[7] == p[7]);
    assert(p[4] == le_u32(GGUF_VERSION)[0] && p[5] == le_u32(GGUF_VERSION)[1] && p[6] == le_u32(
        GGUF_VERSION,
    )[2] && p[7] == le_u32(GGUF_VERSION)[3]);
}

/// Each metadata value starts with its GGUF type tag, read back from its
/// four little-endian bytes: 4 for a `u32`, 10 for a `u64`, 6 for a float, 8
/// for a string, and 9 for an array, whose element tag (8 for strings, 5 for
/// `i32`) and length follow; a number is then its own little-endian bytes.
pub proof fn lemma_value_tags(v: GGUFValueView)
    ensures
        value_bytes(v).len() >= 4,
        ({
            let b = value_bytes(v);
            let tag = b[0] + 256 * b[1] + 0x1_0000 * b[2] + 0x100_0000 * b[3];
            match v {
                GGUFValueView::U32(x) => tag == 4 && b.len() == 8 && b[4] + 256 * b[5] + 0x1_0000
                    * b[6] + 0x100_0000 * b[7] == x,
                GGUFValueView::U64(x) => tag == 10 && b.len() == 12 && le_u64_value(
                    b.subrange(4, 12),
                ) == x,
                GGUFValueView::F32(bits) => tag == 6 && b.len() == 8 && b[4] + 256 * b[5]
                    + 0x1_0000 * b[6] + 0x100_0000 * b[7] == bits,
                GGUFValueView::String(s) => tag == 8 && b.subrange(4, b.len() as int) == gguf_str(s),
                GGUFValueView::ArrayString(items) => tag == 9 && b.len() >= 16 && b[4] + 256 * b[5]
                    + 0x1_0000 * b[6] + 0x100_0000 * b[7] == 8 && le_u64_value(b.subrange(8, 16))
                    == items.len() as u64,
                GGUFValueView::ArrayI32(items) => tag == 9 && b.len() >= 16 && b[4] + 256 * b[5]
                    + 0x1_0000 * b[6] + 0x100_0000 * b[7] == 5 && le_u64_value(b.subrange(8, 16))
                    == items.len() as u64,
            }
        }),
{
    let b = value_bytes(v);
    match v {
        GGUFValueView::U32(x) => {
            lemma_le_u32_value(GGUF_TYPE_UINT32);
            lemma_le_u32_value(x);
        },
        GGUFValueView::U64(x) => {
            lemma_le_u32_value(GGUF_TYPE_UINT64);
            lemma_le_u64_value(x);
            assert(b.subrange(4, 12) =~= le_u64(x));
        },
        GGUFValueView::F32(bits) => {
            lemma_le_u32_value(GGUF_TYPE_FLOAT32);
            lemma_le_u32_value(bits);
        },
        GGUFValueView::String(s) => {
            lemma_le_u32_value(GGUF_TYPE_STRING);
            assert(b.subrange(4, b.len() as int) =~= gguf_str(s));
        },
        GGUFValueView::ArrayString(items) => {
            lemma_le_u32_value(GGUF_TYPE_ARRAY);
            lemma_le_u32_value(GGUF_TYPE_STRING);
            lemma_le_u64_value(items.len() as u64);
            assert(b.subrange(8, 16) =~= le_u64(items.len() as u64));
        },
        GGUFValueView::ArrayI32(items) => {
            lemma_le_u32_value(GGUF_TYPE_ARRAY);
            lemma_le_u32_value(GGUF_TYPE_INT32);
            lemma_le_u64_value(items.len() as u64);
            assert(b.subrange(8, 16) =~= le_u64(items.len() as u64));
        },
    }
}

/// The data section: each tensor's data, then zeros up to the next offset.
pub open spec fn data_section(ts: Seq<QuantizedTensor>, a: int) -> Seq<u8>
    decreases ts.len(),
{
    if ts.len() == 0 {
        Seq::empty()
    } else {
        let prev = ts.drop_last();
        data_section(prev, a) + ts.last().data@ + zeros(
            data_end(ts, a) - data_end(prev, a) - ts.last().data@.len(),
        )
    }
}

/// Every size and offset of the file fits in a `u64`.
pub open spec fn gguf_fits(kvs: Seq<(Seq<char>, GGUFValueView)>, ts: Seq<QuantizedTensor>, a: int) -> bool {
    &&& offsets_fit(ts, a)
    &&& header_prefix(kvs, ts, a).len() + a <= u64::MAX
}

/// The zeros that follow `ts[i]` in the data section.
pub open spec fn data_padding_spec(ts: Seq<QuantizedTensor>, i: int, a: int) -> int {
    data_end(ts.take(i + 1), a) - data_offset(ts, i, a) - ts[i].data@.len()
}

/// A power of two is positive.
proof fn lemma_pow2_u64_pos(a: u64)
    requires
        is_pow2_u64(a),
    ensures
        a >= 1,
{
    let n = choose|n: nat| n < 64 && a == pow2(n);
    lemma_pow2_pos(n);
}

/// Rounding up to a power of two is the least multiple at or above `x`.
proof fn lemma_align_up(x: u64, a: u64)
    requires
        is_pow2_u64(a),
        x + a - 1 <= u64::MAX,
    ensures
        ((x + a - 1) as u64) & !((a - 1) as u64) == align_up_spec(x as int, a as int),
        align_up_spec(x as int, a as int) % (a as int) == 0,
        x <= align_up_spec(x as int, a as int) < x + a,
{
    let n = choose|n: nat| n < 64 && a == pow2(n);
    lemma_pow2_pos(n);
    let y = (x + a - 1) as u64;
    let m = (a - 1) as u64;
    assert(m == low_bits_mask(n) as u64);
    lemma_u64_low_bits_mask_is_mod(y, n);
    assert(y & m == y % a);
    assert(y & !m == y - (y & m)) by (bit_vector);
    lemma_fundamental_div_mod(y as int, a as int);
    lemma_mod_bound(y as int, a as int);
    lemma_mod_multiples_basic(y as int / a as int, a as int);
    assert((y as int / a as int) * a as int == y - y % a);
}

/// The alignment of the data section is a power of two.
proof fn lemma_default_alignment_pow2()
    ensures
        is_pow2_u64(GGUF_DEFAULT_ALIGNMENT),
{
    lemma2_to64();
    assert(GGUF_DEFAULT_ALIGNMENT == pow2(5));
}

/// Rounds `offset` up to the next multiple of `alignment`.
fn align_up(offset: u64, alignment: u64) -> (r: u64)
    requires
        is_pow2_u64(alignment),
        offset + alignment - 1 <= u64::MAX,
    ensures
        r == align_up_spec(offset as int, alignment as int),
        r % alignment == 0,
        offset <= r < offset + alignment,
{
    proof {
        lemma_pow2_u64_pos(alignment);
        lemma_align_up(offset, alignment);
    }
    (offset + (alignment - 1)) & !(alignment - 1)
}

/// Appends `s` as a GGUF string.
fn write_gguf_str(w: &mut Vec<u8>, s: &str)
    ensures
        final(w)@ == old(w)@ + gguf_str(s@),
{
    let b = s.as_bytes();
    push_u64(w, b.len() as u64);
    push_bytes(w, b);
    assert(final(w)@ == old(w)@ + gguf_str(s@));
}

/// Appends an array of strings: array tag, element tag, length, elements.
fn write_str_array(w: &mut Vec<u8>, items: &Vec<String>)
    ensures
        final(w)@ == old(w)@ + le_u32(GGUF_TYPE_ARRAY) + le_u32(GGUF_TYPE_STRING) + le_u64(
            items@.len() as u64,
        ) + strs_bytes(items@.map_values(|s: String| s@)),
{
    push_u32(w, GGUF_TYPE_ARRAY);
    push_u32(w, GGUF_TYPE_STRING);
    push_u64(w, items.len() as u64);
    let ghost start = w@;
    let ghost views = items@.map_values(|s: String| s@);
    let mut i: usize = 0;
    while i < items.len()
        invariant
            0 <= i <= items.len(),
            views == items@.map_values(|s: String| s@),
            w@ == start + strs_bytes(views.take(i as int)),
        decreases items.len() - i,
    {
        write_gguf_str(w, items[i].as_str());
        assert(views.take(i + 1).drop_last() == views.take(i as int));
        i = i + 1;
    }
    assert(views.take(items.len() as int) == views);
}

/// Appends an array of `i32`: array tag, element tag, length, elements.
fn write_i32_array(w: &mut Vec<u8>, items: &Vec<i32>)
    ensures
        final(w)@ == old(w)@ + le_u32(GGUF_TYPE_ARRAY) + le_u32(GGUF_TYPE_INT32) + le_u64(
            items@.len() as u64,
        ) + i32s_bytes(items@),
{
    push_u32(w, GGUF_TYPE_ARRAY);
    push_u32(w, GGUF_TYPE_INT32);
    push_u64(w, items.len() as u64);
    let ghost start = w@;
    let mut i: usize = 0;
    while i < items.len()
        invariant
            0 <= i <= items.len(),
            w@ == start + i32s_bytes(items@.take(i as int)),
        decreases items.len() - i,
    {
        push_i32(w, items[i]);
        assert(items@.take(i + 1).drop_last() == items@.take(i as int));
        i = i + 1;
    }
    assert(items@.take(items.len() as int) == items@);
}

/// Appends a key/value pair.
fn write_kv(w: &mut Vec<u8>, key: &str, value: &GGUFValue)
    ensures
        final(w)@ == old(w)@ + kv_bytes(key@, value@),
{
    write_gguf_str(w, key);
    let ghost after_key = w@;
    match value {
        GGUFValue::U32(val) => {
            push_u32(w, GGUF_TYPE_UINT32);
            push_u32(w, *val);
        },
        GGUFValue::U64(val) => {
            push_u32(w, GGUF_TYPE_UINT64);
            push_u64(w, *val);
        },
        GGUFValue::F32(bits) => {
            push_u32(w, GGUF_TYPE_FLOAT32);
            push_u32(w, *bits);
        },
        GGUFValue::String(s) => {
            push_u32(w, GGUF_TYPE_STRING);
            write_gguf_str(w, s.as_str());
        },
        GGUFValue::ArrayString(items) => {
            write_str_array(w, items);
        },
        GGUFValue::ArrayI32(items) => {
            write_i32_array(w, items);
        },
    }
}

/// Offsets of each tensor's data from the start of the data section, or
/// `SizeOverflow` where an offset would not fit in a `u64`.
fn compute_tensor_data_offsets(tensors: &Vec<QuantizedTensor>, alignment: u64) -> (r: Result<
    Vec<u64>,
    Error,
>)
    requires
        is_pow2_u64(alignment),
    ensures
        r is Ok <==> offsets_fit(tensors@, alignment as int),
        r matches Ok(offs) ==> offs@ == offsets_u64(tensors@, alignment as int),
        r matches Ok(offs) ==> forall|i: int|
            0 <= i < offs@.len() ==> offs@[i] as int == data_offset(tensors@, i, alignment as int),
        r matches Err(e) ==> e is SizeOverflow,
{
    let ghost a = alignment as int;
    let ghost ts = tensors@;
    let mut offsets: Vec<u64> = Vec::with_capacity(tensors.len());
    let mut running_offset: u64 = 0;
    let mut i: usize = 0;
    proof {
        lemma_pow2_u64_pos(alignment);
    }
    assert(ts.take(0) == Seq::<QuantizedTensor>::empty());
    while i < tensors.len()
        invariant
            0 <= i <= tensors.len(),
            ts == tensors@,
            a == alignment as int,
            is_pow2_u64(alignment),
            alignment >= 1,
            running_offset as int == data_end(ts.take(i as int), a),
            offsets@.len() == i,
            forall|j: int| 0 <= j < i ==> offsets@[j] as int == data_offset(ts, j, a),
            forall|j: int|
                0 <= j < i ==> #[trigger] data_offset(ts, j, a) + ts[j].data@.len() + a
                    <= u64::MAX,
        decreases tensors.len() - i,
    {
        let len = tensors[i].data.len() as u64;
        assert(data_offset(ts, i as int, a) == running_offset);
        if len > u64::MAX - running_offset {
            return Err(Error::SizeOverflow);
        }
        let end = running_offset + len;
        if end > u64::MAX - alignment {
            return Err(Error::SizeOverflow);
        }
        offsets.push(running_offset);
        running_offset = align_up(end, alignment);
        assert(ts.take(i + 1).drop_last() == ts.take(i as int));
        i = i + 1;
    }
    assert(offsets@ == offsets_u64(ts, a));
    Ok(offsets)
}

/// Appends the descriptors of the tensors that have an offset.
fn write_tensor_descriptors(w: &mut Vec<u8>, tensors: &Vec<QuantizedTensor>, offsets: &Vec<u64>)
    ensures
        final(w)@ == old(w)@ + descs_bytes(tensors@, offsets@),
{
    let n = if tensors.len() < offsets.len() {
        tensors.len()
    } else {
        offsets.len()
    };
    let ghost ts = tensors@;
    let ghost offs = offsets@;
    let mut i: usize = 0;
    while i < n
        invariant
            0 <= i <= n,
            n <= ts.len(),
            n <= offs.len(),
            n == ts.len() || n == offs.len(),
            ts == tensors@,
            offs == offsets@,
            w@ == old(w)@ + descs_bytes(ts.take(i as int), offs),
        decreases n - i,
    {
        let tensor = &tensors[i];
        let ghost before = w@;
        write_gguf_str(w, tensor.gguf_name.as_str());
        push_u32(w, tensor.shape.len() as u32);
        let ghost dims_start = w@;
        let mut d: usize = 0;
        while d < tensor.shape.len()
            invariant
                0 <= d <= tensor.shape.len(),
                w@ == dims_start + dims_bytes(tensor.shape@.take(d as int)),
            decreases tensor.shape.len() - d,
        {
            push_u64(w, tensor.shape[d] as u64);
            assert(tensor.shape@.take(d + 1).drop_last() == tensor.shape@.take(d as int));
            d = d + 1;
        }
        assert(tensor.shape@.take(tensor.shape.len() as int) == tensor.shape@);
        push_u32(w, tensor.ggml_type.type_id());
        push_u64(w, offsets[i]);
        assert(ts.take(i + 1).drop_last() == ts.take(i as int));
        assert(ts.take(i + 1).last() == ts[i as int]);
        assert(w@ == before + descriptor_bytes(ts[i as int], offs[i as int]));
        i = i + 1;
    }
    proof {
        if n == ts.len() {
            assert(ts.take(n as int) == ts);
        } else {
            lemma_descs_truncate(ts, offs);
        }
    }
}

/// Appends zeros until the length of `w` is a multiple of `alignment`, or
/// reports `SizeOverflow` where the rounded length would not fit in a `u64`.
fn align_write_pos(w: &mut Vec<u8>, alignment: u64) -> (r: Result<(), Error>)
    requires
        is_pow2_u64(alignment),
        alignment - 1 <= usize::MAX,
    ensures
        r is Ok <==> old(w)@.len() + alignment <= u64::MAX,
        r is Ok ==> final(w)@ == old(w)@ + zeros(
            align_up_spec(old(w)@.len() as int, alignment as int) - old(w)@.len(),
        ),
        r is Err ==> final(w)@ == old(w)@ && r == Err::<(), Error>(Error::SizeOverflow),
{
    proof {
        lemma_pow2_u64_pos(alignment);
    }
    let pos = w.len() as u64;
    if pos > u64::MAX - alignment {
        return Err(Error::SizeOverflow);
    }
    let aligned_pos = align_up(pos, alignment);
    let padding = (aligned_pos - pos) as usize;
    if padding > 0 {
        push_zeros(w, padding);
    }
    assert(final(w)@ =~= old(w)@ + zeros(
            align_up_spec(old(w)@.len() as int, alignment as int) - old(w)@.len(),
        ));
    Ok(())
}

/// Appends the data section: each tensor's data, then zeros up to the next
/// offset (after the last tensor, up to the alignment).
fn write_tensor_data(w: &mut Vec<u8>, tensors: &Vec<QuantizedTensor>, offsets: &Vec<u64>, alignment: u64)
    requires
        is_pow2_u64(alignment),
        alignment - 1 <= usize::MAX,
        offsets_fit(tensors@, alignment as int),
        offsets@ == offsets_u64(tensors@, alignment as int),
    ensures
        final(w)@ == old(w)@ + data_section(tensors@, alignment as int),
{
    let ghost a = alignment as int;
    let ghost ts = tensors@;
    let data_section_start = w.len();
    let mut i: usize = 0;
    while i < tensors.len()
        invariant
            0 <= i <= tensors.len(),
            ts == tensors@,
            a == alignment as int,
            is_pow2_u64(alignment),
            alignment - 1 <= usize::MAX,
            offsets_fit(ts, a),
            offsets@ == offsets_u64(ts, a),
            data_section_start == old(w)@.len(),
            w@ == old(w)@ + data_section(ts.take(i as int), a),
            data_section(ts.take(i as int), a).len() == data_end(ts.take(i as int), a),
        decreases tensors.len() - i,
    {
        let ghost before = w@;
        let ghost prefix = ts.take(i as int);
        assert(ts.take(i + 1).drop_last() == prefix);
        assert(ts.take(i + 1).last() == ts[i as int]);
        assert(data_offset(ts, i as int, a) + ts[i as int].data@.len() + a <= u64::MAX);
        push_bytes(w, tensors[i].data.as_slice());
        let written_so_far = (w.len() - data_section_start) as u64;
        assert(written_so_far == data_offset(ts, i as int, a) + ts[i as int].data@.len());
        let expected_pos = if i + 1 < offsets.len() {
            assert(offsets@[i + 1] as int == data_offset(ts, i + 1, a));
            offsets[i + 1]
        } else {
            align_up(written_so_far, alignment)
        };
        assert(expected_pos == data_end(ts.take(i + 1), a));
        proof {
            lemma_align_up(written_so_far, alignment);
        }
        let padding = (expected_pos - written_so_far) as usize;
        if padding > 0 {
            push_zeros(w, padding);
        }
        assert(w@ =~= old(w)@ + data_section(ts.take(i + 1), a));
        i = i + 1;
    }
    assert(ts.take(tensors.len() as int) == ts);
}

/// Rounding up moves a non-negative integer to a multiple of the alignment,
/// by less than the alignment.
pub proof fn lemma_align_up_int(x: int, a: int)
    requires
        x >= 0,
        a >= 1,
    ensures
        x <= align_up_spec(x, a) < x + a,
        align_up_spec(x, a) % a == 0,
{
    let y = x + a - 1;
    lemma_fundamental_div_mod(y, a);
    lemma_mod_bound(y, a);
    lemma_mod_multiples_basic(y / a, a);
    assert((y / a) * a == a * (y / a)) by (nonlinear_arith);
}

/// The data section is `data_end` bytes long, and its end is aligned.
pub proof fn lemma_data_section_len(ts: Seq<QuantizedTensor>, a: int)
    requires
        a >= 1,
    ensures
        data_section(ts, a).len() == data_end(ts, a),
        data_end(ts, a) >= 0,
        data_end(ts, a) % a == 0,
    decreases ts.len(),
{
    if ts.len() > 0 {
        lemma_data_section_len(ts.drop_last(), a);
        lemma_align_up_int(data_end(ts.drop_last(), a) + ts.last().data@.len(), a);
    } else {
        assert(0int % a == 0);
    }
}

/// Appending the tensors one at a time, each followed by its padding, gives
/// the data section: the section of the first `i + 1` tensors is that of the
/// first `i`, then the data of tensor `i`, then `data_padding_spec` zeros.
pub proof fn lemma_data_section_step(ts: Seq<QuantizedTensor>, a: int, i: int)
    requires
        a >= 1,
        0 <= i < ts.len(),
    ensures
        data_section(ts.take(i + 1), a) == data_section(ts.take(i), a) + ts[i].data@ + zeros(
            data_padding_spec(ts, i, a),
        ),
        data_padding_spec(ts, i, a) >= 0,
        data_section(ts.take(ts.len() as int), a) == data_section(ts, a),
{
    assert(ts.take(i + 1).drop_last() == ts.take(i));
    assert(ts.take(i + 1).last() == ts[i]);
    assert(ts.take(ts.len() as int) == ts);
    lemma_data_section_len(ts.take(i), a);
    lemma_align_up_int(data_end(ts.take(i), a) + ts[i].data@.len(), a);
}

/// Tensor placement: in the data section, the data of tensor `i` lies at its
/// offset, and every offset is a multiple of the alignment.
pub proof fn lemma_tensor_data_at_offset(ts: Seq<QuantizedTensor>, a: int, i: int)
    requires
        a >= 1,
        0 <= i < ts.len(),
    ensures
        data_offset(ts, i, a) % a == 0,
        data_offset(ts, i, a) + ts[i].data@.len() <= data_section(ts, a).len(),
        data_section(ts, a).subrange(
            data_offset(ts, i, a),
            data_offset(ts, i, a) + ts[i].data@.len(),
        ) == ts[i].data@,
    decreases ts.len(),
{
    lemma_data_section_len(ts, a);
    lemma_data_section_len(ts.take(i), a);
    let prev = ts.drop_last();
    lemma_data_section_len(prev, a);
    lemma_align_up_int(data_end(prev, a) + ts.last().data@.len(), a);
    if i == ts.len() - 1 {
        assert(ts.take(i) == prev);
        assert(data_section(ts, a).subrange(
            data_offset(ts, i, a),
            data_offset(ts, i, a) + ts[i].data@.len(),
        ) == ts[i].data@);
    } else {
        lemma_tensor_data_at_offset(prev, a, i);
        assert(prev.take(i) == ts.take(i));
        assert(prev[i] == ts[i]);
        assert(data_section(ts, a).subrange(0, data_section(prev, a).len() as int) == data_section(
            prev,
            a,
        ));
        assert(data_section(ts, a).subrange(
            data_offset(ts, i, a),
            data_offset(ts, i, a) + ts[i].data@.len(),
        ) == data_section(prev, a).subrange(
            data_offset(prev, i, a),
            data_offset(prev, i, a) + prev[i].data@.len(),
        ));
    }
}

/// Tensor placement in the file: the header is a whole number of alignment
/// units, the data of tensor `i` starts at the header's length plus its
/// offset, and where the offsets fit in a `u64` that offset is the one that
/// the tensor's descriptor records.
pub proof fn lemma_file_tensor_placement(
    kvs: Seq<(Seq<char>, GGUFValueView)>,
    ts: Seq<QuantizedTensor>,
    a: int,
    i: int,
)
    requires
        a >= 1,
        0 <= i < ts.len(),
    ensures
        (gguf_header(kvs, ts, a).len() as int) % a == 0,
        ({
            let file = gguf_header(kvs, ts, a) + data_section(ts, a);
            let start = gguf_header(kvs, ts, a).len() + data_offset(ts, i, a);
            file.subrange(start, start + ts[i].data@.len()) == ts[i].data@
        }),
        offsets_fit(ts, a) ==> offsets_u64(ts, a)[i] as int == data_offset(ts, i, a),
{
    let p = header_prefix(kvs, ts, a);
    lemma_align_up_int(p.len() as int, a);
    let h = gguf_header(kvs, ts, a);
    assert(h.len() == align_up_spec(p.len() as int, a));
    lemma_tensor_data_at_offset(ts, a, i);
    lemma_data_section_len(ts.take(i), a);
    if offsets_fit(ts, a) {
        assert(data_offset(ts, i, a) + ts[i].data@.len() + a <= u64::MAX);
    }
    let file = h + data_section(ts, a);
    let start = h.len() + data_offset(ts, i, a);
    assert(file.subrange(start, start + ts[i].data@.len()) =~= data_section(ts, a).subrange(
        data_offset(ts, i, a),
        data_offset(ts, i, a) + ts[i].data@.len(),
    ));
}

/// Writes a GGUF file from metadata key/value pairs and tensors.
pub struct GGUFWriter {
    kvs: Vec<(String, GGUFValue)>,
    tensors: Vec<QuantizedTensor>,
    alignment: u64,
}

impl GGUFWriter {
    #[verifier::type_invariant]
    spec fn alignment_is_default(self) -> bool {
        self.alignment == GGUF_DEFAULT_ALIGNMENT
    }

    /// The metadata pairs, keys and values taken by their views.
    pub closed spec fn spec_kvs(self) -> Seq<(Seq<char>, GGUFValueView)> {
        kvs_view(self.kvs@)
    }

    /// The tensors, in the order in which they are written.
    pub closed spec fn spec_tensors(self) -> Seq<QuantizedTensor> {
        self.tensors@
    }

    /// The alignment of the data section.
    pub closed spec fn spec_alignment(self) -> int {
        self.alignment as int
    }

    /// A writer of `kvs` and `tensors`, with the tensor data aligned to 32 bytes.
    pub fn new(kvs: Vec<(String, GGUFValue)>, tensors: Vec<QuantizedTensor>) -> (r: Self)
        ensures
            r.spec_kvs() == kvs_view(kvs@),
            r.spec_tensors() == tensors@,
            r.spec_alignment() == GGUF_DEFAULT_ALIGNMENT,
    {
        Self { kvs, tensors, alignment: GGUF_DEFAULT_ALIGNMENT }
    }

    /// The tensors that this writer writes.
    pub fn tensors(&self) -> (r: &Vec<QuantizedTensor>)
        ensures
            r@ == self.spec_tensors(),
    {
        &self.tensors
    }

    /// The alignment of the data section.
    pub fn alignment(&self) -> (r: u64)
        ensures
            r == self.spec_alignment(),
            r == GGUF_DEFAULT_ALIGNMENT,
    {
        proof {
            use_type_invariant(self);
        }
        self.alignment
    }

    /// The header of the file: magic number, version, tensor and key/value
    /// counts, the key/value pairs, the tensor descriptors, and zeros up to the
    /// alignment. `SizeOverflow` where a size or offset does not fit in a `u64`.
    pub fn header_bytes(&self) -> (r: Result<Vec<u8>, Error>)
        ensures
            r is Ok <==> gguf_fits(self.spec_kvs(), self.spec_tensors(), self.spec_alignment()),
            r matches Ok(h) ==> h@ == gguf_header(
                self.spec_kvs(),
                self.spec_tensors(),
                self.spec_alignment(),
            ),
            r matches Err(e) ==> e is SizeOverflow,
    {
        proof {
            use_type_invariant(self);
            lemma_default_alignment_pow2();
        }
        let ghost kvs = kvs_view(self.kvs@);
        let ghost ts = self.tensors@;
        let ghost a = self.alignment as int;
        let mut w: Vec<u8> = Vec::new();
        push_u32(&mut w, GGUF_LE_MAGIC_NUMBER);
        push_u32(&mut w, GGUF_VERSION);
        push_u64(&mut w, self.tensors.len() as u64);
        push_u64(&mut w, self.kvs.len() as u64);
        let ghost start = w@;
        let mut i: usize = 0;
        while i < self.kvs.len()
            invariant
                0 <= i <= self.kvs.len(),
                kvs == kvs_view(self.kvs@),
                w@ == start + kvs_bytes(kvs.take(i as int)),
            decreases self.kvs.len() - i,
        {
            let (key, val) = &self.kvs[i];
            write_kv(&mut w, key.as_str(), val);
            assert(kvs.take(i + 1).drop_last() == kvs.take(i as int));
            i = i + 1;
        }
        assert(kvs.take(self.kvs.len() as int) == kvs);
        let offsets = match compute_tensor_data_offsets(&self.tensors, self.alignment) {
            Ok(o) => o,
            Err(e) => {
                return Err(e);
            },
        };
        write_tensor_descriptors(&mut w, &self.tensors, &offsets);
        assert(w@ == header_prefix(kvs, ts, a));
        match align_write_pos(&mut w, self.alignment) {
            Ok(()) => {},
            Err(e) => {
                return Err(e);
            },
        }
        Ok(w)
    }

    /// The number of zeros that follow the data of tensor `i` in the data
    /// section, or `SizeOverflow` where an offset does not fit in a `u64`.
    pub fn data_padding(&self, i: usize) -> (r: Result<usize, Error>)
        requires
            i < self.spec_tensors().len(),
        ensures
            r is Ok <==> offsets_fit(self.spec_tensors(), self.spec_alignment()),
            r matches Ok(p) ==> p as int == data_padding_spec(
                self.spec_tensors(),
                i as int,
                self.spec_alignment(),
            ),
            r matches Err(e) ==> e is SizeOverflow,
    {
        proof {
            use_type_invariant(self);
            lemma_default_alignment_pow2();
        }
        let ghost ts = self.tensors@;
        let ghost a = self.alignment as int;
        let offsets = match compute_tensor_data_offsets(&self.tensors, self.alignment) {
            Ok(o) => o,
            Err(e) => {
                return Err(e);
            },
        };
        let end = offsets[i] + self.tensors[i].data.len() as u64;
        assert(ts.take(i + 1).drop_last() == ts.take(i as int));
        assert(ts.take(i + 1).last() == ts[i as int]);
        assert(data_offset(ts, i as int, a) + ts[i as int].data@.len() + a <= u64::MAX);
        let next = align_up(end, self.alignment);
        Ok((next - end) as usize)
    }

    /// The whole file: the header, then the data section.
    pub fn to_bytes(&self) -> (r: Result<Vec<u8>, Error>)
        ensures
            r is Ok <==> gguf_fits(self.spec_kvs(), self.spec_tensors(), self.spec_alignment()),
            r matches Ok(b) ==> b@ == gguf_header(
                self.spec_kvs(),
                self.spec_tensors(),
                self.spec_alignment(),
            ) + data_section(self.spec_tensors(), self.spec_alignment()),
            r matches Err(e) ==> e is SizeOverflow,
    {
        proof {
            use_type_invariant(self);
            lemma_default_alignment_pow2();
        }
        let mut w = match self.header_bytes() {
            Ok(h) => h,
            Err(e) => {
                return Err(e);
            },
        };
        let offsets = match compute_tensor_data_offsets(&self.tensors, self.alignment) {
            Ok(o) => o,
            Err(e) => {
                return Err(e);
            },
        };
        write_tensor_data(&mut w, &self.tensors, &offsets, self.alignment);
        Ok(w)
    }
}

} // verus!
