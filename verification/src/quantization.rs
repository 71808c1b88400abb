//! Decisions of Q8_0 quantization and the byte layout of Q8_0 blocks.
//!
//! The arithmetic on float values (block scales and rounding) stays with the
//! caller; this module decides, for every tensor of a safetensors file, what is
//! done with it, and packs the results of that arithmetic into blocks.

use crate::bytes::{le_u16, push_bytes, push_u16};
use crate::error::Error;
use crate::ggml::{GGMLType, QuantizedTensor};
use crate::gguf::tensor_names::{hf_to_ggf_name, hf_to_gguf_name_spec};
use crate::tensor_file::{
    dtype_byte_width, is_parse_error, parse_safetensors, enumerates, product_fits, safetensors_contents,
    safetensors_entries, safetensors_parsed, shape_product, TensorEntry,
};
use crate::text::{has_suffix, is_suffix, str_eq};
use crate::quant::utils::pad_len;
use crate::{copy_usizes, dtype_from_name, shape_num_elements, DType, DTypeView};
use safetensors::SafeTensors;
use vstd::prelude::*;

verus! {

/// Block size of the Q8_0 quantization strategy
pub const Q8_0_BLOCK_SIZE: usize = 32;

/// Layer name suffixes that should not be quantized
pub const GGUF_KEEP_F32_SUFFIXES: [&'static str; 4] = [
    ".norm.weight",
    "_norm.weight",
    ".norm_1.weight",
    ".norm_2.weight",
];

/// Exact Layer names that should not be quantized
pub const GGUF_KEEP_F32_EXACT: [&'static str; 2] = ["token_embd.weight", "output_norm.weight"];

/// The tensor name is one that is always kept in f32.
pub open spec fn is_keep_f32_name(name: Seq<char>) -> bool {
    ||| name == "token_embd.weight"@
    ||| name == "output_norm.weight"@
    ||| is_suffix(".norm.weight"@, name)
    ||| is_suffix("_norm.weight"@, name)
    ||| is_suffix(".norm_1.weight"@, name)
    ||| is_suffix(".norm_2.weight"@, name)
}

/// A tensor is quantized unless it is 1-D or its name is kept in f32.
pub open spec fn should_quantize_spec(name: Seq<char>, shape: Seq<usize>) -> bool {
    shape.len() != 1 && !is_keep_f32_name(name)
}

/// Returns `true` if a tensor should be quantized to `Q8_0`, `false` if it must be kept in f32.
///
/// Two categories of tensors are always kept in f32:
///     - **1-D Tensors** - bias vectors, norms, and embedding scales; quantizing these produces
/// garbage output because Q8_0 block size assumes 2-D weight matrices
///     - **Named Exceptions** - tensors in `GGUF_KEEP_F32_EXACT` (exact match) or whose name
/// ends with a suffix in `GGUF_KEEP_F32_SUFFIXES` (e.g. `"norm.weight"`) — llama.cpp requires
/// these in F32 to preserve numerical stability during inference
pub fn should_quantize(tensor_name: &str, shape: &[usize]) -> (r: bool)
    ensures
        r == should_quantize_spec(tensor_name@, shape@),
{
    if shape.len() == 1 {
        return false;
    }
    if str_eq(tensor_name, "token_embd.weight") || str_eq(tensor_name, "output_norm.weight") {
        return false;
    }
    if has_suffix(tensor_name, ".norm.weight") || has_suffix(tensor_name, "_norm.weight")
        || has_suffix(tensor_name, ".norm_1.weight") || has_suffix(tensor_name, ".norm_2.weight") {
        return false;
    }
    true
}

/// What is done with one tensor.
#[derive(Debug, Clone, Copy, PartialEq, Eq, Structural)]
pub enum TensorAction {
    /// Its dtype cannot be decoded to f32: it is left out.
    Skip,
    /// Decoded to f32 and stored as f32.
    KeepF32,
    /// Decoded to f32, padded to whole blocks and quantized to Q8_0.
    QuantizeQ8_0,
    /// Stored unchanged under the given GGML type.
    PassThrough(GGMLType),
    /// Decoded to f32, padded to whole superblocks and quantized to Q4_K.
    QuantizeQ4K,
}

/// The plan for one tensor of a safetensors file.
pub struct TensorPlan<'data> {
    /// Name of the tensor in the safetensors file
    pub name: String,
    /// Standard GGUF tensor name
    pub gguf_name: String,
    /// Shape of the tensor
    pub shape: Vec<usize>,
    /// Element type in the safetensors file
    pub dtype: DType,
    /// The tensor's bytes in the safetensors file
    pub data: &'data [u8],
    /// The product of the dimensions
    pub num_elements: usize,
    /// What is done with the tensor
    pub action: TensorAction,
}

/// The dtypes that can be decoded to f32.
pub open spec fn is_float_dtype(d: DTypeView) -> bool {
    d is F32 || d is F16 || d is BF16
}

/// The number of f32 values decoded from `byte_len` bytes of dtype `d`:
/// whole 4-byte groups for F32, whole 2-byte groups for F16 and BF16.
pub open spec fn decoded_len(d: DTypeView, byte_len: int) -> int {
    if d is F32 {
        byte_len / 4
    } else if d is F16 || d is BF16 {
        byte_len / 2
    } else {
        0
    }
}

/// The number of f32 values decoded from `byte_len` bytes of `dtype`.
pub fn decoded_count(dtype: &DType, byte_len: usize) -> (r: usize)
    ensures
        r == decoded_len(dtype@, byte_len as int),
{
    match dtype {
        DType::F32 => byte_len / 4,
        DType::F16 | DType::BF16 => byte_len / 2,
        _ => 0,
    }
}

/// A quantization strategy.
#[derive(Debug, Clone, Copy, PartialEq, Eq, Structural)]
pub enum QuantStrategy {
    Q8_0,
    Q4K,
}

/// What a strategy does with a tensor of dtype `d`, standard name `gguf_name`
/// and shape `shape`; `None` where the strategy refuses the dtype.
///
/// Q8_0 stores I32 and I64 tensors unchanged, skips the other dtypes that are
/// not F32, F16 or BF16, keeps in f32 what `should_quantize` refuses, and
/// quantizes the rest. Q4_K stores I32 and I64
/// tensors unchanged, quantizes F32, F16 and BF16 tensors, and refuses the rest.
pub open spec fn tensor_action(
    strategy: QuantStrategy,
    d: DTypeView,
    gguf_name: Seq<char>,
    shape: Seq<usize>,
) -> Option<TensorAction> {
    match strategy {
        QuantStrategy::Q8_0 => if d is I32 {
            Some(TensorAction::PassThrough(GGMLType::I32))
        } else if d is I64 {
            Some(TensorAction::PassThrough(GGMLType::I64))
        } else if !is_float_dtype(d) {
            Some(TensorAction::Skip)
        } else if !should_quantize_spec(gguf_name, shape) {
            Some(TensorAction::KeepF32)
        } else {
            Some(TensorAction::QuantizeQ8_0)
        },
        QuantStrategy::Q4K => if d is I32 {
            Some(TensorAction::PassThrough(GGMLType::I32))
        } else if d is I64 {
            Some(TensorAction::PassThrough(GGMLType::I64))
        } else if is_float_dtype(d) {
            Some(TensorAction::QuantizeQ4K)
        } else {
            None
        },
    }
}

/// A strategy can handle a tensor: its name is mapped, its dtype is accepted,
/// and if it is quantized to Q8_0, the decoded values are as many as its shape
/// holds.
pub open spec fn entry_ok(
    strategy: QuantStrategy,
    name: Seq<char>,
    e: (Seq<char>, Seq<usize>, Seq<u8>),
) -> bool {
    match hf_to_gguf_name_spec(name) {
        None => false,
        Some(g) => {
            let d = dtype_from_name(e.0);
            match tensor_action(strategy, d, g, e.1) {
                None => false,
                Some(a) => a is QuantizeQ8_0 ==> decoded_len(d, e.2.len() as int) == shape_product(
                    e.1,
                ),
            }
        },
    }
}

/// `p` is the plan of the tensor `name` with entry `e`.
pub open spec fn plan_matches(
    strategy: QuantStrategy,
    p: TensorPlan<'_>,
    name: Seq<char>,
    e: (Seq<char>, Seq<usize>, Seq<u8>),
) -> bool {
    &&& p.name@ == name
    &&& hf_to_gguf_name_spec(name) == Some(p.gguf_name@)
    &&& p.dtype@ == dtype_from_name(e.0)
    &&& p.shape@ == e.1
    &&& p.data@ == e.2
    &&& p.num_elements == shape_product(e.1)
    &&& tensor_action(strategy, p.dtype@, p.gguf_name@, e.1) == Some(p.action)
}

/// `err` reports the tensor `name` with entry `e` as one that the strategy
/// cannot handle.
pub open spec fn error_describes(
    strategy: QuantStrategy,
    err: Error,
    name: Seq<char>,
    e: (Seq<char>, Seq<usize>, Seq<u8>),
) -> bool {
    match err {
        Error::UnmappedTensorName(n) => n@ == name && hf_to_gguf_name_spec(name) is None,
        Error::UnsupportedDtype(dtype) => {
            &&& hf_to_gguf_name_spec(name) is Some
            &&& dtype@ == dtype_from_name(e.0)
            &&& tensor_action(strategy, dtype@, hf_to_gguf_name_spec(name).unwrap(), e.1) is None
        },
        Error::ElementCountMismatch { name: n, expected, decoded, dtype } => {
            &&& n@ == name
            &&& hf_to_gguf_name_spec(name) is Some
            &&& dtype@ == dtype_from_name(e.0)
            &&& tensor_action(strategy, dtype@, hf_to_gguf_name_spec(name).unwrap(), e.1)
                == Some(TensorAction::QuantizeQ8_0)
            &&& expected == shape_product(e.1)
            &&& decoded == decoded_len(dtype@, e.2.len() as int)
            &&& expected != decoded
        },
        _ => false,
    }
}

/// The plans list every tensor of `contents` once, each matching its entry.
pub open spec fn plans_cover(
    strategy: QuantStrategy,
    plans: Seq<TensorPlan<'_>>,
    contents: Map<Seq<char>, (Seq<char>, Seq<usize>, Seq<u8>)>,
) -> bool {
    &&& plans.len() == contents.dom().len()
    &&& forall|i: int|
        0 <= i < plans.len() ==> #[trigger] contents.contains_key(plans[i].name@) && plan_matches(
            strategy,
            plans[i],
            plans[i].name@,
            contents[plans[i].name@],
        )
    &&& forall|k: Seq<char>|
        contents.contains_key(k) ==> exists|i: int| 0 <= i < plans.len() && #[trigger] plans[i].name@ == k
    &&& forall|i: int, j: int|
        0 <= i < plans.len() && 0 <= j < plans.len() && i != j ==> plans[i].name@ != plans[j].name@
}

/// The plan of one tensor entry.
fn plan_entry<'data>(strategy: QuantStrategy, e: &TensorEntry<'data>) -> (r: Result<TensorPlan<'data>, Error>)
    requires
        product_fits(e.shape@),
    ensures
        r is Ok <==> entry_ok(strategy, e.name@, (e.dtype_name@, e.shape@, e.data@)),
        r matches Ok(p) ==> plan_matches(strategy, p, e.name@, (e.dtype_name@, e.shape@, e.data@)),
        r matches Err(err) ==> error_describes(
            strategy,
            err,
            e.name@,
            (e.dtype_name@, e.shape@, e.data@),
        ),
{
    let gguf_name = match hf_to_ggf_name(e.name.as_str()) {
        Some(g) => g,
        None => {
            return Err(Error::UnmappedTensorName(e.name.clone()));
        },
    };
    let dtype = DType::from_name(e.dtype_name.as_str());
    let num_elements = shape_num_elements(e.shape.as_slice());
    let is_float = match dtype {
        DType::F32 | DType::F16 | DType::BF16 => true,
        _ => false,
    };
    let action = match strategy {
        QuantStrategy::Q8_0 => {
            if let DType::I32 = dtype {
                TensorAction::PassThrough(GGMLType::I32)
            } else if let DType::I64 = dtype {
                TensorAction::PassThrough(GGMLType::I64)
            } else if !is_float {
                TensorAction::Skip
            } else if !should_quantize(gguf_name.as_str(), e.shape.as_slice()) {
                TensorAction::KeepF32
            } else {
                let decoded = decoded_count(&dtype, e.data.len());
                if decoded != num_elements {
                    return Err(
                        Error::ElementCountMismatch {
                            name: e.name.clone(),
                            expected: num_elements,
                            decoded,
                            dtype,
                        },
                    );
                }
                TensorAction::QuantizeQ8_0
            }
        },
        QuantStrategy::Q4K => {
            match dtype {
                DType::I32 => TensorAction::PassThrough(GGMLType::I32),
                DType::I64 => TensorAction::PassThrough(GGMLType::I64),
                _ => {
                    if !is_float {
                        return Err(Error::UnsupportedDtype(dtype));
                    }
                    TensorAction::QuantizeQ4K
                },
            }
        },
    };
    let shape = copy_usizes(&e.shape);
    Ok(
        TensorPlan {
            name: e.name.clone(),
            gguf_name,
            shape,
            dtype,
            data: e.data,
            num_elements,
            action,
        },
    )
}

/// The byte width of one element of a dtype, or 0 where it is not one that
/// the library reads.
pub open spec fn element_width(d: DTypeView) -> int {
    match d {
        DTypeView::F32 | DTypeView::I32 => 4,
        DTypeView::F16 | DTypeView::BF16 => 2,
        DTypeView::I64 => 8,
        DTypeView::Other(_) => 0,
    }
}

/// The bytes of every planned tensor of a known dtype are those of its
/// elements.
pub open spec fn plans_sized(plans: Seq<TensorPlan<'_>>) -> bool {
    forall|i: int|
        0 <= i < plans.len() && element_width(#[trigger] plans[i].dtype@) > 0
            ==> plans[i].data@.len() == element_width(plans[i].dtype@) * plans[i].num_elements
}

/// `r` is what a strategy makes of a file that holds `contents`: success
/// exactly when every tensor can be handled, then a plan for each tensor,
/// sized by its elements; otherwise an error that describes one tensor that
/// cannot be handled, never an element count mismatch.
pub open spec fn plan_result(
    strategy: QuantStrategy,
    r: Result<Vec<TensorPlan<'_>>, Error>,
    contents: Map<Seq<char>, (Seq<char>, Seq<usize>, Seq<u8>)>,
) -> bool {
    &&& r is Ok <==> forall|k: Seq<char>|
        #[trigger] contents.contains_key(k) ==> entry_ok(strategy, k, contents[k])
    &&& r matches Ok(plans) ==> plans_cover(strategy, plans@, contents) && plans_sized(plans@)
    &&& r matches Err(err) ==> exists|k: Seq<char>|
        #[trigger] contents.contains_key(k) && error_describes(strategy, err, k, contents[k])
    &&& r matches Err(err) ==> !(err is ElementCountMismatch)
}

/// The byte width of a dtype, read from its name.
proof fn lemma_element_width(name: Seq<char>)
    ensures
        element_width(dtype_from_name(name)) == dtype_byte_width(name),
{
    reveal_strlit("F32");
    reveal_strlit("F16");
    reveal_strlit("BF16");
    reveal_strlit("I32");
    reveal_strlit("I64");
    assert("F16"@ != "F32"@ && "F16"@ != "I32"@ && "I32"@ != "F32"@ && "I64"@ != "F32"@
        && "I64"@ != "I32"@) by {
        assert("F16"@[1] != "F32"@[1] && "F16"@[0] != "I32"@[0] && "I32"@[0] != "F32"@[0]);
        assert("I64"@[0] != "F32"@[0] && "I64"@[1] != "I32"@[1]);
    }
    assert("BF16"@ != "F32"@ && "BF16"@ != "I32"@ && "BF16"@ != "F16"@ && "BF16"@ != "I64"@) by {
        assert("BF16"@.len() == 4);
    }
    assert("I64"@ != "F16"@) by {
        assert("I64"@[0] != "F16"@[0]);
    }
}

/// What a strategy does with every tensor of a safetensors file, in the order
/// in which the file's index is walked; on error, the first tensor in that
/// order that the strategy cannot handle is reported.
pub fn plan_safetensors<'data>(strategy: QuantStrategy, tensors: &SafeTensors<'data>) -> (r: Result<
    Vec<TensorPlan<'data>>,
    Error,
>)
    ensures
        plan_result(strategy, r, safetensors_contents(*tensors)),
{
    let entries = safetensors_entries(tensors);
    let ghost contents = safetensors_contents(*tensors);
    let mut plans: Vec<TensorPlan<'data>> = Vec::new();
    let mut i: usize = 0;
    while i < entries.len()
        invariant
            0 <= i <= entries.len(),
            contents == safetensors_contents(*tensors),
            enumerates(entries@, contents),
            forall|j: int| 0 <= j < entries@.len() ==> product_fits(#[trigger] entries@[j].shape@),
            forall|j: int|
                0 <= j < entries@.len() && dtype_byte_width(#[trigger] entries@[j].dtype_name@) > 0
                    ==> entries@[j].data@.len() == dtype_byte_width(entries@[j].dtype_name@)
                    * shape_product(entries@[j].shape@),
            plans@.len() == i,
            plans_sized(plans@),
            forall|j: int|
                0 <= j < i ==> #[trigger] plans@[j].name@ == entries@[j].name@ && plan_matches(
                    strategy,
                    plans@[j],
                    entries@[j].name@,
                    contents[entries@[j].name@],
                ),
            forall|j: int|
                0 <= j < i ==> entry_ok(
                    strategy,
                    #[trigger] entries@[j].name@,
                    contents[entries@[j].name@],
                ),
        decreases entries.len() - i,
    {
        let e = &entries[i];
        assert(contents.contains_key(entries@[i as int].name@));
        assert(product_fits(entries@[i as int].shape@));
        match plan_entry(strategy, e) {
            Ok(p) => {
                proof {
                    lemma_element_width(e.dtype_name@);
                }
                let ghost before = plans@;
                plans.push(p);
                assert forall|j: int|
                    0 <= j < plans@.len() && element_width(#[trigger] plans@[j].dtype@) > 0
                        implies plans@[j].data@.len() == element_width(plans@[j].dtype@)
                    * plans@[j].num_elements by {
                    if j < before.len() {
                        assert(plans@[j] == before[j]);
                    }
                }
            },
            Err(err) => {
                proof {
                    assert(contents[e.name@] == (e.dtype_name@, e.shape@, e.data@));
                    assert(contents.contains_key(e.name@) && !entry_ok(
                        strategy,
                        e.name@,
                        contents[e.name@],
                    ));
                    lemma_validated_counts_match(e.dtype_name@, e.shape@, e.data@);
                }
                return Err(err);
            },
        }
        i = i + 1;
    }
    proof {
        crate::lemma_enumeration_len(entries@, contents);
        assert forall|k: Seq<char>| #[trigger] contents.contains_key(k) implies entry_ok(
            strategy,
            k,
            contents[k],
        ) by {
            let j = choose|j: int| 0 <= j < entries@.len() && #[trigger] entries@[j].name@ == k;
            assert(entry_ok(strategy, entries@[j].name@, contents[entries@[j].name@]));
        }
        assert forall|k: Seq<char>| contents.contains_key(k) implies exists|j: int|
            0 <= j < plans@.len() && #[trigger] plans@[j].name@ == k by {
            let j = choose|j: int| 0 <= j < entries@.len() && #[trigger] entries@[j].name@ == k;
            assert(plans@[j].name@ == k);
        }
        assert forall|j: int| 0 <= j < plans@.len() implies #[trigger] contents.contains_key(
            plans@[j].name@,
        ) && plan_matches(strategy, plans@[j], plans@[j].name@, contents[plans@[j].name@]) by {
            assert(plans@[j].name@ == entries@[j].name@);
        }
        assert forall|a: int, b: int|
            0 <= a < plans@.len() && 0 <= b < plans@.len() && a != b implies plans@[a].name@
            != plans@[b].name@ by {
            assert(plans@[a].name@ == entries@[a].name@);
            assert(plans@[b].name@ == entries@[b].name@);
        }
    }
    Ok(plans)
}

/// A tensor whose byte length is that of its elements decodes to as many
/// values as its shape holds.
proof fn lemma_validated_counts_match(dtype_name: Seq<char>, shape: Seq<usize>, data: Seq<u8>)
    requires
        dtype_byte_width(dtype_name) > 0 ==> data.len() == dtype_byte_width(dtype_name)
            * shape_product(shape),
    ensures
        is_float_dtype(dtype_from_name(dtype_name)) ==> decoded_len(
            dtype_from_name(dtype_name),
            data.len() as int,
        ) == shape_product(shape),
{
    let d = dtype_from_name(dtype_name);
    let p = shape_product(shape);
    reveal_strlit("F32");
    reveal_strlit("F16");
    reveal_strlit("BF16");
    reveal_strlit("I32");
    assert("F16"@ != "F32"@ && "F16"@ != "I32"@) by {
        assert("F16"@[1] != "F32"@[1] && "F16"@[0] != "I32"@[0]);
    }
    assert("BF16"@ != "F32"@ && "BF16"@ != "I32"@ && "BF16"@ != "F16"@) by {
        assert("BF16"@.len() == 4);
    }
    if d is F32 {
        assert(dtype_name == "F32"@);
        assert((4 * p) / 4 == p) by (nonlinear_arith);
    } else if d is F16 {
        assert(dtype_name == "F16"@);
        assert((2 * p) / 2 == p) by (nonlinear_arith);
    } else if d is BF16 {
        assert(dtype_name == "BF16"@);
        assert((2 * p) / 2 == p) by (nonlinear_arith);
    }
}

/// What Q8_0 quantization does with every tensor of a safetensors file.
///
/// Every tensor needs a standard GGUF name (else `UnmappedTensorName`).
/// I32 and I64 tensors are stored unchanged; other tensors whose dtype is not
/// F32, F16 or BF16 are skipped; the others are
/// kept in f32 when `should_quantize` refuses their standard name and shape,
/// and are quantized otherwise, which needs as many decoded values as the
/// shape holds; a parsed file always gives that many, so the only error is
/// `UnmappedTensorName`.
pub fn plan_safetensors_q8_0<'data>(tensors: &SafeTensors<'data>) -> (r: Result<
    Vec<TensorPlan<'data>>,
    Error,
>)
    ensures
        plan_result(QuantStrategy::Q8_0, r, safetensors_contents(*tensors)),
        r matches Err(err) ==> err is UnmappedTensorName,
{
    plan_safetensors(QuantStrategy::Q8_0, tensors)
}

/// What Q4_K quantization does with every tensor of a safetensors file.
///
/// Every tensor needs a standard GGUF name (else `UnmappedTensorName`). I32
/// and I64 tensors are stored unchanged, F32, F16 and BF16 tensors are
/// quantized, and any other dtype is refused (`UnsupportedDtype`).
pub fn plan_safetensors_q4k<'data>(tensors: &SafeTensors<'data>) -> (r: Result<
    Vec<TensorPlan<'data>>,
    Error,
>)
    ensures
        plan_result(QuantStrategy::Q4K, r, safetensors_contents(*tensors)),
        r matches Err(err) ==> err is UnmappedTensorName || err is UnsupportedDtype,
{
    plan_safetensors(QuantStrategy::Q4K, tensors)
}

/// What Q8_0 quantization does with every tensor of the safetensors file
/// held in `bytes`: a parse error exactly where the bytes are not such a
/// file, else as `plan_safetensors_q8_0`.
pub fn plan_safetensors_q8_0_bytes<'a>(bytes: &'a [u8]) -> (r: Result<Vec<TensorPlan<'a>>, Error>)
    ensures
        safetensors_parsed(bytes@) is None <==> (r matches Err(e) && is_parse_error(e)),
        safetensors_parsed(bytes@) matches Some(contents) ==> plan_result(
            QuantStrategy::Q8_0,
            r,
            contents,
        ),
        safetensors_parsed(bytes@) is Some ==> (r matches Err(err) ==> err is UnmappedTensorName),
{
    match parse_safetensors(bytes) {
        Ok(st) => plan_safetensors_q8_0(&st),
        Err(e) => Err(e),
    }
}

/// What Q4_K quantization does with every tensor of the safetensors file
/// held in `bytes`: a parse error exactly where the bytes are not such a
/// file, else as `plan_safetensors_q4k`.
pub fn plan_safetensors_q4k_bytes<'a>(bytes: &'a [u8]) -> (r: Result<Vec<TensorPlan<'a>>, Error>)
    ensures
        safetensors_parsed(bytes@) is None <==> (r matches Err(e) && is_parse_error(e)),
        safetensors_parsed(bytes@) matches Some(contents) ==> plan_result(
            QuantStrategy::Q4K,
            r,
            contents,
        ),
        safetensors_parsed(bytes@) is Some ==> (r matches Err(err) ==> err is UnmappedTensorName
            || err is UnsupportedDtype),
{
    match parse_safetensors(bytes) {
        Ok(st) => plan_safetensors_q4k(&st),
        Err(e) => Err(e),
    }
}

/// The GGML type of a planned tensor, where it is kept.
pub open spec fn planned_type(action: TensorAction) -> Option<GGMLType> {
    match action {
        TensorAction::Skip => None,
        TensorAction::KeepF32 => Some(GGMLType::F32),
        TensorAction::QuantizeQ8_0 => Some(GGMLType::Q8_0),
        TensorAction::PassThrough(t) => Some(t),
        TensorAction::QuantizeQ4K => Some(GGMLType::Q4K),
    }
}

/// The quantized tensor of a plan with its encoded bytes `data`; `None` for a
/// skipped tensor. A tensor kept in f32 counts its decoded values; any other
/// counts the elements of its shape.
pub fn quantized_tensor(plan: TensorPlan<'_>, data: Vec<u8>) -> (r: Option<QuantizedTensor>)
    ensures
        planned_type(plan.action) is None <==> r is None,
        r matches Some(t) ==> {
            &&& t.name == plan.name
            &&& t.gguf_name == plan.gguf_name
            &&& t.shape == plan.shape
            &&& t.data == data
            &&& Some(t.ggml_type) == planned_type(plan.action)
            &&& t.num_elements == if plan.action is KeepF32 {
                decoded_len(plan.dtype@, plan.data@.len() as int)
            } else {
                plan.num_elements as int
            }
        },
{
    let ggml_type = match plan.action {
        TensorAction::Skip => {
            return None;
        },
        TensorAction::KeepF32 => GGMLType::F32,
        TensorAction::QuantizeQ8_0 => GGMLType::Q8_0,
        TensorAction::PassThrough(t) => t,
        TensorAction::QuantizeQ4K => GGMLType::Q4K,
    };
    let num_elements = match plan.action {
        TensorAction::KeepF32 => decoded_count(&plan.dtype, plan.data.len()),
        _ => plan.num_elements,
    };
    Some(
        QuantizedTensor {
            name: plan.name,
            gguf_name: plan.gguf_name,
            shape: plan.shape,
            data,
            num_elements,
            ggml_type,
        },
    )
}

/// The quantized tensor of a plan that stores its tensor unchanged: the bytes
/// of the safetensors file, under the plan's GGML type.
pub fn pass_through_tensor(plan: TensorPlan<'_>) -> (r: QuantizedTensor)
    requires
        plan.action is PassThrough,
    ensures
        r.name == plan.name,
        r.gguf_name == plan.gguf_name,
        r.shape == plan.shape,
        r.data@ == plan.data@,
        Some(r.ggml_type) == planned_type(plan.action),
        r.num_elements == plan.num_elements,
{
    let ggml_type = match plan.action {
        TensorAction::PassThrough(t) => t,
        _ => vstd::pervasive::unreached(),
    };
    let mut data: Vec<u8> = Vec::with_capacity(plan.data.len());
    push_bytes(&mut data, plan.data);
    QuantizedTensor {
        name: plan.name,
        gguf_name: plan.gguf_name,
        shape: plan.shape,
        data,
        num_elements: plan.num_elements,
        ggml_type,
    }
}

/// Q8_0 blocks: for each block, its scale (an f16 bit pattern) as two
/// little-endian bytes, then its `block_size` quantized values as bytes.
pub open spec fn q8_0_blocks_spec(scales: Seq<u16>, quants: Seq<i8>, block_size: int) -> Seq<u8>
    decreases scales.len(),
{
    if scales.len() == 0 {
        Seq::empty()
    } else {
        let b = scales.len() - 1;
        q8_0_blocks_spec(scales.drop_last(), quants, block_size) + le_u16(scales.last())
            + quants.subrange(b * block_size, b * block_size + block_size).map_values(
            |q: i8| #[verifier::truncate] (q as u8),
        )
    }
}

/// Packs Q8_0 blocks: block `b` is the little-endian scale `scales[b]`, then
/// the values `quants[b * block_size .. (b + 1) * block_size]` as bytes, so that
/// each block takes `block_size + 2` bytes.
pub fn pack_q8_0_blocks(scales: &[u16], quants: &[i8], block_size: usize) -> (r: Vec<u8>)
    requires
        quants@.len() == scales@.len() * block_size,
    ensures
        r@ == q8_0_blocks_spec(scales@, quants@, block_size as int),
        r@.len() == scales@.len() * (block_size + 2),
{
    let n = scales.len();
    let qlen = quants.len();
    let mut out: Vec<u8> = Vec::new();
    let mut b: usize = 0;
    while b < n
        invariant
            0 <= b <= n,
            n == scales@.len(),
            qlen == quants@.len(),
            quants@.len() == n * block_size,
            out@ == q8_0_blocks_spec(scales@.take(b as int), quants@, block_size as int),
            out@.len() == b * (block_size + 2),
        decreases n - b,
    {
        assert((b + 1) * block_size <= n * block_size) by (nonlinear_arith)
            requires
                b < n,
                qlen == n * block_size,
        {}
        assert(b * block_size + block_size == (b + 1) * block_size) by (nonlinear_arith);
        assert((b + 1) * (block_size + 2) == b * (block_size + 2) + block_size + 2) by (nonlinear_arith);
        assert(b * block_size <= qlen);
        let base = b * block_size;
        let ghost before = out@;
        push_u16(&mut out, scales[b]);
        let ghost mid = out@;
        let mut j: usize = 0;
        while j < block_size
            invariant
                0 <= j <= block_size,
                base == b * block_size,
                base + block_size <= quants@.len(),
                qlen == quants@.len(),
                out@ == mid + quants@.subrange(base as int, base + j).map_values(|q: i8| q as u8),
            decreases block_size - j,
        {
            out.push(#[verifier::truncate] (quants[base + j] as u8));
            j = j + 1;
            assert(out@ =~= mid + quants@.subrange(base as int, base + j).map_values(|q: i8| q as u8));
        }
        assert(scales@.take(b + 1).drop_last() == scales@.take(b as int));
        assert(scales@.take(b + 1).last() == scales@[b as int]);
        b = b + 1;
    }
    assert(scales@.take(n as int) == scales@);
    out
}

/// The number of Q8_0 blocks that hold `n` values, the last one padded.
pub open spec fn q8_0_block_count(n: int) -> int {
    (n + Q8_0_BLOCK_SIZE - 1) / (Q8_0_BLOCK_SIZE as int)
}

/// Padding `n` values to whole blocks gives `q8_0_block_count(n)` blocks.
pub proof fn lemma_padded_block_count(n: int)
    requires
        n >= 0,
    ensures
        n + pad_len(n, Q8_0_BLOCK_SIZE as int) == Q8_0_BLOCK_SIZE * q8_0_block_count(n),
{
}

/// The quantized tensor of a plan that quantizes its tensor to Q8_0, from
/// the scale (an f16 bit pattern) and the 32 quantized values of each block
/// of its values padded to whole blocks: the packed blocks, `34` bytes each.
pub fn q8_0_tensor(plan: TensorPlan<'_>, scales: &[u16], quants: &[i8]) -> (r: QuantizedTensor)
    requires
        plan.action is QuantizeQ8_0,
        scales@.len() == q8_0_block_count(plan.num_elements as int),
        quants@.len() == scales@.len() * Q8_0_BLOCK_SIZE,
    ensures
        r.name == plan.name,
        r.gguf_name == plan.gguf_name,
        r.shape == plan.shape,
        r.ggml_type == GGMLType::Q8_0,
        r.num_elements == plan.num_elements,
        r.data@ == q8_0_blocks_spec(scales@, quants@, Q8_0_BLOCK_SIZE as int),
        r.data@.len() == q8_0_block_count(plan.num_elements as int) * (Q8_0_BLOCK_SIZE + 2),
{
    let data = pack_q8_0_blocks(scales, quants, Q8_0_BLOCK_SIZE);
    QuantizedTensor {
        name: plan.name,
        gguf_name: plan.gguf_name,
        shape: plan.shape,
        data,
        num_elements: plan.num_elements,
        ggml_type: GGMLType::Q8_0,
    }
}

/// The quantized tensor of an F32 tensor that is kept in f32: the bytes of
/// its whole 4-byte values, unchanged, as many values as they hold.
pub fn keep_f32_tensor(plan: TensorPlan<'_>) -> (r: QuantizedTensor)
    requires
        plan.action is KeepF32,
        plan.dtype@ is F32,
    ensures
        r.name == plan.name,
        r.gguf_name == plan.gguf_name,
        r.shape == plan.shape,
        r.ggml_type == GGMLType::F32,
        r.num_elements == plan.data@.len() / 4,
        r.num_elements == decoded_len(plan.dtype@, plan.data@.len() as int),
        r.data@ == plan.data@.subrange(0, 4 * (plan.data@.len() / 4) as int),
{
    let n = plan.data.len() / 4;
    let k = 4 * n;
    let mut data: Vec<u8> = Vec::with_capacity(k);
    let mut i: usize = 0;
    while i < k
        invariant
            0 <= i <= k,
            k <= plan.data@.len(),
            data@ == plan.data@.subrange(0, i as int),
        decreases k - i,
    {
        data.push(plan.data[i]);
        i = i + 1;
        assert(data@ =~= plan.data@.subrange(0, i as int));
    }
    QuantizedTensor {
        name: plan.name,
        gguf_name: plan.gguf_name,
        shape: plan.shape,
        data,
        num_elements: n,
        ggml_type: GGMLType::F32,
    }
}

/// Packing is blockwise: packing two block lists one after the other gives
/// the packing of the first, then that of the second.
pub proof fn lemma_q8_0_blocks_concat(
    s1: Seq<u16>,
    q1: Seq<i8>,
    s2: Seq<u16>,
    q2: Seq<i8>,
    block_size: int,
)
    requires
        block_size >= 0,
        q1.len() == s1.len() * block_size,
        q2.len() == s2.len() * block_size,
    ensures
        q8_0_blocks_spec(s1 + s2, q1 + q2, block_size) == q8_0_blocks_spec(s1, q1, block_size)
            + q8_0_blocks_spec(s2, q2, block_size),
    decreases s2.len(),
{
    let n1 = s1.len();
    let n2 = s2.len();
    if n2 == 0 {
        assert(s1 + s2 == s1);
        assert(q1 =~= (q1 + q2).subrange(0, q1.len() as int));
        lemma_q8_0_blocks_prefix(s1, q1 + q2, q1, block_size);
        assert(q8_0_blocks_spec(s2, q2, block_size) == Seq::<u8>::empty());
        assert(q8_0_blocks_spec(s1 + s2, q1 + q2, block_size) + Seq::<u8>::empty() =~= q8_0_blocks_spec(
            s1 + s2,
            q1 + q2,
            block_size,
        ));
    } else {
        let s2p = s2.drop_last();
        assert((n2 - 1) * block_size + block_size == n2 * block_size) by (nonlinear_arith);
        assert(0 <= (n2 - 1) * block_size) by (nonlinear_arith)
            requires
                n2 >= 1,
                block_size >= 0,
        ;
        let q2p = q2.subrange(0, (n2 - 1) * block_size);
        lemma_q8_0_blocks_concat(s1, q1, s2p, q2p, block_size);
        assert((s1 + s2).drop_last() =~= s1 + s2p);
        assert((s1 + s2).last() == s2.last());
        assert(n1 * block_size + (n2 - 1) * block_size == (n1 + n2 - 1) * block_size)
            by (nonlinear_arith);
        assert(q1 + q2p =~= (q1 + q2).subrange(0, (n1 + n2 - 1) * block_size));
        lemma_q8_0_blocks_prefix(s1 + s2p, q1 + q2, q1 + q2p, block_size);
        lemma_q8_0_blocks_prefix(s2p, q2, q2p, block_size);
        let b = n1 + n2 - 1;
        assert((q1 + q2).subrange(b * block_size, b * block_size + block_size) =~= q2.subrange(
            (n2 - 1) * block_size,
            (n2 - 1) * block_size + block_size,
        ));
        assert(q8_0_blocks_spec(s1 + s2, q1 + q2, block_size) =~= q8_0_blocks_spec(s1, q1, block_size)
            + q8_0_blocks_spec(s2, q2, block_size));
    }
}

/// Packing reads only the values of the blocks that it packs.
proof fn lemma_q8_0_blocks_prefix(s: Seq<u16>, q: Seq<i8>, p: Seq<i8>, block_size: int)
    requires
        block_size >= 0,
        p.len() == s.len() * block_size,
        q.len() >= p.len(),
        p == q.subrange(0, p.len() as int),
    ensures
        q8_0_blocks_spec(s, q, block_size) == q8_0_blocks_spec(s, p, block_size),
    decreases s.len(),
{
    if s.len() > 0 {
        let n = s.len() - 1;
        assert(n * block_size + block_size == s.len() * block_size) by (nonlinear_arith)
            requires
                n == s.len() - 1,
        ;
        assert(0 <= n * block_size) by (nonlinear_arith)
            requires
                n >= 0,
                block_size >= 0,
        ;
        let pp = p.subrange(0, n * block_size);
        assert(pp == q.subrange(0, n * block_size));
        lemma_q8_0_blocks_prefix(s.drop_last(), q, pp, block_size);
        lemma_q8_0_blocks_prefix(s.drop_last(), p, pp, block_size);
        assert(q.subrange(n * block_size, n * block_size + block_size) =~= p.subrange(
            n * block_size,
            n * block_size + block_size,
        ));
    }
}

/// The packed blocks take `block_size + 2` bytes each.
pub proof fn lemma_q8_0_blocks_len(scales: Seq<u16>, quants: Seq<i8>, block_size: int)
    requires
        block_size >= 0,
        quants.len() == scales.len() * block_size,
    ensures
        q8_0_blocks_spec(scales, quants, block_size).len() == scales.len() * (block_size + 2),
    decreases scales.len(),
{
    if scales.len() > 0 {
        let n = scales.len() - 1;
        assert(quants.len() == scales.drop_last().len() * block_size + block_size) by (nonlinear_arith)
            requires
                quants.len() == scales.len() * block_size,
                n == scales.len() - 1,
                scales.drop_last().len() == n,
        ;
        lemma_q8_0_blocks_prefix_len(scales, quants, block_size);
    }
}

proof fn lemma_q8_0_blocks_prefix_len(scales: Seq<u16>, quants: Seq<i8>, block_size: int)
    requires
        block_size >= 0,
        scales.len() > 0,
        quants.len() >= scales.len() * block_size,
    ensures
        q8_0_blocks_spec(scales, quants, block_size).len() == scales.len() * (block_size + 2),
    decreases scales.len(),
{
    let n = scales.len() - 1;
    assert(n * block_size + block_size == scales.len() * block_size) by (nonlinear_arith)
        requires
            n == scales.len() - 1,
    ;
    assert(0 <= n * block_size) by (nonlinear_arith)
        requires
            n >= 0,
            block_size >= 0,
    ;
    assert(scales.len() * (block_size + 2) == n * (block_size + 2) + block_size + 2) by (nonlinear_arith)
        requires
            n == scales.len() - 1,
    ;
    let head = q8_0_blocks_spec(scales.drop_last(), quants, block_size);
    if n > 0 {
        assert(quants.len() >= scales.drop_last().len() * block_size) by (nonlinear_arith)
            requires
                quants.len() >= scales.len() * block_size,
                scales.drop_last().len() == scales.len() - 1,
                block_size >= 0,
        ;
        lemma_q8_0_blocks_prefix_len(scales.drop_last(), quants, block_size);
    } else {
        assert(head.len() == 0);
        assert(n * (block_size + 2) == 0) by (nonlinear_arith)
            requires
                n == 0,
        ;
    }
    assert(head.len() == n * (block_size + 2));
    let chunk = quants.subrange(n * block_size, n * block_size + block_size).map_values(
        |q: i8| #[verifier::truncate] (q as u8),
    );
    assert(chunk.len() == block_size);
    assert(q8_0_blocks_spec(scales, quants, block_size) == head + le_u16(scales.last()) + chunk);
}

/// Q8_0 block layout: block `b` starts at byte `b * (block_size + 2)` with the
/// two little-endian bytes of its scale, followed by its values as bytes.
pub proof fn lemma_q8_0_block_layout(scales: Seq<u16>, quants: Seq<i8>, block_size: int, b: int)
    requires
        block_size >= 0,
        quants.len() == scales.len() * block_size,
        0 <= b < scales.len(),
    ensures
        ({
            let packed = q8_0_blocks_spec(scales, quants, block_size);
            let start = b * (block_size + 2);
            &&& packed.subrange(start, start + 2) == le_u16(scales[b])
            &&& packed.subrange(start + 2, start + 2 + block_size) == quants.subrange(
                b * block_size,
                b * block_size + block_size,
            ).map_values(|q: i8| #[verifier::truncate] (q as u8))
        }),
    decreases scales.len(),
{
    let n = scales.len() - 1;
    let prev = scales.drop_last();
    assert(n * block_size + block_size == scales.len() * block_size) by (nonlinear_arith)
        requires
            n == scales.len() - 1,
    ;
    assert(0 <= n * block_size) by (nonlinear_arith)
        requires
            n >= 0,
            block_size >= 0,
    ;
    if n > 0 {
        lemma_q8_0_blocks_prefix_len(prev, quants, block_size);
    }
    let packed = q8_0_blocks_spec(scales, quants, block_size);
    let head = q8_0_blocks_spec(prev, quants, block_size);
    assert(head.len() == n * (block_size + 2)) by {
        if n == 0 {
            assert(head.len() == 0);
            assert(n * (block_size + 2) == 0) by (nonlinear_arith)
                requires
                    n == 0,
            ;
        }
    }
    if b == n {
        let start = b * (block_size + 2);
        assert(packed.subrange(start, start + 2) =~= le_u16(scales[b]));
        assert(packed.subrange(start + 2, start + 2 + block_size) =~= quants.subrange(
            b * block_size,
            b * block_size + block_size,
        ).map_values(|q: i8| #[verifier::truncate] (q as u8)));
    } else {
        assert(quants.len() >= prev.len() * block_size) by (nonlinear_arith)
            requires
                quants.len() == scales.len() * block_size,
                prev.len() == scales.len() - 1,
                block_size >= 0,
        ;
        lemma_q8_0_block_layout_prefix(prev, quants, block_size, b);
        let start = b * (block_size + 2);
        assert(start + 2 + block_size <= head.len()) by (nonlinear_arith)
            requires
                b < n,
                head.len() == n * (block_size + 2),
                start == b * (block_size + 2),
                block_size >= 0,
        ;
        assert(packed.subrange(start, start + 2) =~= head.subrange(start, start + 2));
        assert(packed.subrange(start + 2, start + 2 + block_size) =~= head.subrange(
            start + 2,
            start + 2 + block_size,
        ));
        assert(scales[b] == prev[b]);
    }
}

proof fn lemma_q8_0_block_layout_prefix(scales: Seq<u16>, quants: Seq<i8>, block_size: int, b: int)
    requires
        block_size >= 0,
        quants.len() >= scales.len() * block_size,
        0 <= b < scales.len(),
    ensures
        ({
            let packed = q8_0_blocks_spec(scales, quants, block_size);
            let start = b * (block_size + 2);
            &&& packed.subrange(start, start + 2) == le_u16(scales[b])
            &&& packed.subrange(start + 2, start + 2 + block_size) == quants.subrange(
                b * block_size,
                b * block_size + block_size,
            ).map_values(|q: i8| #[verifier::truncate] (q as u8))
        }),
    decreases scales.len(),
{
    let n = scales.len() - 1;
    let prev = scales.drop_last();
    assert(n * block_size + block_size == scales.len() * block_size) by (nonlinear_arith)
        requires
            n == scales.len() - 1,
    ;
    assert(0 <= n * block_size) by (nonlinear_arith)
        requires
            n >= 0,
            block_size >= 0,
    ;
    if n > 0 {
        assert(quants.len() >= prev.len() * block_size) by (nonlinear_arith)
            requires
                quants.len() >= scales.len() * block_size,
                prev.len() == scales.len() - 1,
                block_size >= 0,
        ;
        lemma_q8_0_blocks_prefix_len(prev, quants, block_size);
    }
    let packed = q8_0_blocks_spec(scales, quants, block_size);
    let head = q8_0_blocks_spec(prev, quants, block_size);
    assert(head.len() == n * (block_size + 2)) by {
        if n == 0 {
            assert(head.len() == 0);
            assert(n * (block_size + 2) == 0) by (nonlinear_arith)
                requires
                    n == 0,
            ;
        }
    }
    if b == n {
        let start = b * (block_size + 2);
        assert(packed.subrange(start, start + 2) =~= le_u16(scales[b]));
        assert(packed.subrange(start + 2, start + 2 + block_size) =~= quants.subrange(
            b * block_size,
            b * block_size + block_size,
        ).map_values(|q: i8| #[verifier::truncate] (q as u8)));
    } else {
        lemma_q8_0_block_layout_prefix(prev, quants, block_size, b);
        let start = b * (block_size + 2);
        assert(start + 2 + block_size <= head.len()) by (nonlinear_arith)
            requires
                b < n,
                head.len() == n * (block_size + 2),
                start == b * (block_size + 2),
                block_size >= 0,
        ;
        assert(packed.subrange(start, start + 2) =~= head.subrange(start, start + 2));
        assert(packed.subrange(start + 2, start + 2 + block_size) =~= head.subrange(
            start + 2,
            start + 2 + block_size,
        ));
        assert(scales[b] == prev[b]);
    }
}

/// Normalization layers and embeddings are always kept in f32, as are 1-D
/// tensors; every other float tensor is quantized to Q8_0.
pub proof fn lemma_q8_0_keeps_norms_and_embeddings(d: DTypeView, gguf_name: Seq<char>, shape: Seq<usize>)
    requires
        is_float_dtype(d),
    ensures
        gguf_name == "token_embd.weight"@ ==> tensor_action(QuantStrategy::Q8_0, d, gguf_name, shape)
            == Some(TensorAction::KeepF32),
        gguf_name == "output_norm.weight"@ ==> tensor_action(QuantStrategy::Q8_0, d, gguf_name, shape)
            == Some(TensorAction::KeepF32),
        is_suffix("_norm.weight"@, gguf_name) || is_suffix(".norm.weight"@, gguf_name)
            || is_suffix(".norm_1.weight"@, gguf_name) || is_suffix(".norm_2.weight"@, gguf_name)
            ==> tensor_action(QuantStrategy::Q8_0, d, gguf_name, shape) == Some(
            TensorAction::KeepF32,
        ),
        shape.len() == 1 ==> tensor_action(QuantStrategy::Q8_0, d, gguf_name, shape) == Some(
            TensorAction::KeepF32,
        ),
        shape.len() != 1 && !is_keep_f32_name(gguf_name) ==> tensor_action(
            QuantStrategy::Q8_0,
            d,
            gguf_name,
            shape,
        ) == Some(TensorAction::QuantizeQ8_0),
{
}

/// All other multi-dimensional tensors are quantized: a float tensor that is
/// not 1-D, is neither `token_embd.weight` nor `output_norm.weight`, and whose
/// name ends in none of `.norm.weight`, `_norm.weight`, `.norm_1.weight` and
/// `.norm_2.weight`, is quantized to Q8_0.
pub proof fn lemma_q8_0_quantizes_other_tensors(d: DTypeView, name: Seq<char>, shape: Seq<usize>)
    requires
        d is F32 || d is F16 || d is BF16,
        shape.len() != 1,
        name != "token_embd.weight"@,
        name != "output_norm.weight"@,
        !is_suffix(".norm.weight"@, name),
        !is_suffix("_norm.weight"@, name),
        !is_suffix(".norm_1.weight"@, name),
        !is_suffix(".norm_2.weight"@, name),
    ensures
        should_quantize_spec(name, shape),
        tensor_action(QuantStrategy::Q8_0, d, name, shape) == Some(TensorAction::QuantizeQ8_0),
{
}

/// I32 and I64 tensors are passed through as-is by every strategy.
pub proof fn lemma_integers_pass_through(
    strategy: QuantStrategy,
    d: DTypeView,
    gguf_name: Seq<char>,
    shape: Seq<usize>,
)
    ensures
        d is I32 ==> tensor_action(strategy, d, gguf_name, shape) == Some(
            TensorAction::PassThrough(GGMLType::I32),
        ),
        d is I64 ==> tensor_action(strategy, d, gguf_name, shape) == Some(
            TensorAction::PassThrough(GGMLType::I64),
        ),
{
}

} // verus!
