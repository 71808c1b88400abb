//! The tensors of a parsed safetensors file.

use crate::error::Error;
use safetensors::tensor::Metadata;
use safetensors::{SafeTensorError, SafeTensors};
use vstd::prelude::*;

verus! {

#[verifier::external_type_specification]
#[verifier::external_body]
pub struct ExSafeTensors<'data>(SafeTensors<'data>);

/// The product of the dimensions of a shape (1 for no dimension).
pub open spec fn shape_product(shape: Seq<usize>) -> int
    decreases shape.len(),
{
    if shape.len() == 0 {
        1
    } else {
        shape_product(shape.drop_last()) * shape.last()
    }
}

/// Every partial product of the dimensions, taken from the first, fits in a `usize`.
pub open spec fn product_fits(shape: Seq<usize>) -> bool {
    forall|k: int| 0 <= k <= shape.len() ==> #[trigger] shape_product(shape.take(k)) <= usize::MAX
}

/// What a parsed safetensors file holds: for each tensor name, its dtype name,
/// its shape and its bytes.
pub uninterp spec fn safetensors_contents(st: SafeTensors<'_>) -> Map<Seq<char>, (Seq<char>, Seq<usize>, Seq<u8>)>;

#[verifier::external_type_specification]
#[verifier::external_body]
pub struct ExSafeTensorError(SafeTensorError);

/// What the bytes of a safetensors file hold, read as such a file: for each
/// tensor name, its dtype name, its shape and its bytes; `None` where the
/// bytes are not a valid safetensors file.
pub uninterp spec fn safetensors_parsed(bytes: Seq<u8>) -> Option<Map<Seq<char>, (Seq<char>, Seq<usize>, Seq<u8>)>>;

/// The largest header, in bytes, that safetensors reads.
pub const SAFETENSORS_MAX_HEADER_SIZE: u64 = 100_000_000;

/// The header size that a safetensors file declares in its first eight
/// bytes, read least significant byte first.
pub open spec fn header_size(bytes: Seq<u8>) -> int {
    bytes[0] + 256 * bytes[1] + 65536 * bytes[2] + 16777216 * bytes[3] + 0x1_0000_0000 * (bytes[4]
        + 256 * bytes[5] + 65536 * bytes[6] + 16777216 * bytes[7])
}

/// The length of the data section that a safetensors header declares (the
/// end of its last tensor's data), where the header is JSON metadata that
/// passes safetensors' validation; `None` otherwise.
pub uninterp spec fn safetensors_header_end(header: Seq<u8>) -> Option<usize>;

/// safetensors computes the end of a file from its header without checking
/// for overflow: it returns normally unless a header of a readable size
/// declares a data section whose end, added to the header, passes
/// `usize::MAX`.
pub open spec fn deserialize_returns(bytes: Seq<u8>) -> bool {
    bytes.len() >= 8 && header_size(bytes) <= SAFETENSORS_MAX_HEADER_SIZE && 8 + header_size(bytes)
        <= bytes.len() ==> match safetensors_header_end(
        bytes.subrange(8, 8 + header_size(bytes)),
    ) {
        Some(e) => e + 8 + header_size(bytes) <= usize::MAX,
        None => true,
    }
}

/// safetensors' `Metadata` deserialized from JSON, then its `data_len`: the
/// data length that the header `bytes[start..end]` declares, where it is
/// metadata that passes validation. A file is valid only where that length
/// plus the header and its eight-byte size is the file's length, so where
/// the header of `bytes` declares more, `bytes` is no valid file.
#[verifier::external_body]
fn declared_data_len(bytes: &[u8], start: usize, end: usize) -> (r: Option<usize>)
    requires
        start <= end <= bytes@.len(),
    ensures
        r == safetensors_header_end(bytes@.subrange(start as int, end as int)),
        (start == 8 && bytes@.len() >= 8 && end == 8 + header_size(bytes@) && (r matches Some(e)
            && e + end > usize::MAX)) ==> safetensors_parsed(bytes@) is None,
{
    match serde_json::from_slice::<Metadata>(&bytes[start..end]) {
        Ok(m) => Some(m.data_len()),
        Err(_) => None,
    }
}

/// safetensors' `SafeTensors::deserialize`: reads the header of a
/// safetensors file and validates it against the bytes that follow. It
/// succeeds exactly on valid files, and what the parsed file holds is what
/// the bytes hold. It adds the declared data length to the header's without
/// checking for overflow, so it is called only where that sum fits.
#[verifier::external_body]
fn deserialize_safetensors<'a>(bytes: &'a [u8]) -> (r: Result<SafeTensors<'a>, SafeTensorError>)
    requires
        deserialize_returns(bytes@),
    ensures
        r is Ok <==> safetensors_parsed(bytes@) is Some,
        r matches Ok(st) ==> safetensors_parsed(bytes@) == Some(safetensors_contents(st)),
{
    SafeTensors::deserialize(bytes)
}

/// An error that reports bytes that are no valid safetensors file.
pub open spec fn is_parse_error(e: Error) -> bool {
    e is InvalidSafetensors || e is SafetensorsDataOverflow
}

/// Parses the safetensors file held in `bytes`: `InvalidSafetensors` where
/// safetensors refuses it, `SafetensorsDataOverflow` where its header
/// declares more data than can be addressed.
pub fn parse_safetensors<'a>(bytes: &'a [u8]) -> (r: Result<SafeTensors<'a>, Error>)
    ensures
        r is Ok <==> safetensors_parsed(bytes@) is Some,
        r matches Ok(st) ==> safetensors_parsed(bytes@) == Some(safetensors_contents(st)),
        r matches Err(e) ==> is_parse_error(e),
{
    if bytes.len() >= 8 && bytes[4] == 0 && bytes[5] == 0 && bytes[6] == 0 && bytes[7] == 0 {
        let n: u64 = bytes[0] as u64 + 256 * (bytes[1] as u64) + 65536 * (bytes[2] as u64)
            + 16777216 * (bytes[3] as u64);
        assert(n == header_size(bytes@));
        if n <= SAFETENSORS_MAX_HEADER_SIZE && (n as usize) <= bytes.len() - 8 {
            let end = 8 + n as usize;
            match declared_data_len(bytes, 8, end) {
                Some(e) => {
                    if e > usize::MAX - end {
                        return Err(Error::SafetensorsDataOverflow);
                    }
                },
                None => {},
            }
        }
    } else if bytes.len() >= 8 {
        assert(header_size(bytes@) >= 0x1_0000_0000);
    }
    match deserialize_safetensors(bytes) {
        Ok(st) => Ok(st),
        Err(e) => Err(Error::InvalidSafetensors(e)),
    }
}

/// One tensor of a safetensors file.
pub struct TensorEntry<'data> {
    pub name: String,
    pub dtype_name: String,
    pub shape: Vec<usize>,
    pub data: &'data [u8],
}

/// The byte size of one element of the dtypes that the library reads.
pub open spec fn dtype_byte_width(dtype_name: Seq<char>) -> int {
    if dtype_name == "F32"@ || dtype_name == "I32"@ {
        4
    } else if dtype_name == "F16"@ || dtype_name == "BF16"@ {
        2
    } else if dtype_name == "I64"@ {
        8
    } else {
        0
    }
}

/// `entries` lists every tensor of `contents` once, in some order.
pub open spec fn enumerates(
    entries: Seq<TensorEntry<'_>>,
    contents: Map<Seq<char>, (Seq<char>, Seq<usize>, Seq<u8>)>,
) -> bool {
    &&& forall|i: int|
        0 <= i < entries.len() ==> #[trigger] contents.contains_key(entries[i].name@)
            && contents[entries[i].name@] == (
            entries[i].dtype_name@,
            entries[i].shape@,
            entries[i].data@,
        )
    &&& forall|k: Seq<char>|
        contents.contains_key(k) ==> exists|i: int| 0 <= i < entries.len() && #[trigger] entries[i].name@ == k
    &&& forall|i: int, j: int|
        0 <= i < entries.len() && 0 <= j < entries.len() && i != j ==> entries[i].name@
            != entries[j].name@
}

/// safetensors' `SafeTensors::tensors`: every tensor of the file with its
/// name, dtype (by the name that the dtype displays), shape and bytes, each
/// tensor once, in an order that the crate does not fix (it walks a hash map).
/// The file was validated when it was parsed: the product of the dimensions
/// of each shape, taken from the first, never exceeds a `usize`, and a tensor of F32, I32, F16, BF16 or I64 holds exactly the
/// bytes of its elements.
#[verifier::external_body]
pub fn safetensors_entries<'data>(st: &SafeTensors<'data>) -> (r: Vec<TensorEntry<'data>>)
    ensures
        enumerates(r@, safetensors_contents(*st)),
        forall|i: int|
            0 <= i < r@.len() ==> product_fits(#[trigger] r@[i].shape@),
        forall|i: int|
            0 <= i < r@.len() && dtype_byte_width(#[trigger] r@[i].dtype_name@) > 0
                ==> r@[i].data@.len() == dtype_byte_width(r@[i].dtype_name@) * shape_product(
                r@[i].shape@,
            ),
{
    st.tensors().into_iter().map(|(name, view)| TensorEntry {
        name,
        dtype_name: view.dtype().to_string(),
        shape: view.shape().to_vec(),
        data: view.data(),
    }).collect()
}

} // verus!
