//! Quantization of HuggingFace safetensors models into GGUF files.

use vstd::prelude::*;

pub mod bytes;
pub mod error;
pub mod ggml;
pub mod gguf;
pub mod hf_config;
pub mod model_dir;
pub mod quant;
pub mod quantization;
pub mod tensor_file;
pub mod text;
pub mod tokenizer;

use crate::error::Error;
use crate::tensor_file::{
    enumerates, is_parse_error, parse_safetensors, product_fits, safetensors_contents, safetensors_entries,
    safetensors_parsed, shape_product, TensorEntry,
};
use crate::text::str_eq;
use safetensors::SafeTensors;

verus! {

/// Element type of a tensor as named in a safetensors header.
#[derive(Debug, Clone, PartialEq, Eq)]
pub enum DType {
    F32,
    F16,
    BF16,
    I32,
    I64,
    Other(String),
}

/// A dtype with the name of an unlisted one taken as characters.
pub enum DTypeView {
    F32,
    F16,
    BF16,
    I32,
    I64,
    Other(Seq<char>),
}

impl View for DType {
    type V = DTypeView;

    open spec fn view(&self) -> DTypeView {
        match self {
            DType::F32 => DTypeView::F32,
            DType::F16 => DTypeView::F16,
            DType::BF16 => DTypeView::BF16,
            DType::I32 => DTypeView::I32,
            DType::I64 => DTypeView::I64,
            DType::Other(s) => DTypeView::Other(s@),
        }
    }
}

/// The dtype that a safetensors dtype name denotes.
pub open spec fn dtype_from_name(name: Seq<char>) -> DTypeView {
    if name == "F32"@ {
        DTypeView::F32
    } else if name == "F16"@ {
        DTypeView::F16
    } else if name == "BF16"@ {
        DTypeView::BF16
    } else if name == "I32"@ {
        DTypeView::I32
    } else if name == "I64"@ {
        DTypeView::I64
    } else {
        DTypeView::Other(name)
    }
}

/// The name of a dtype.
pub open spec fn dtype_name(d: DTypeView) -> Seq<char> {
    match d {
        DTypeView::F32 => "F32"@,
        DTypeView::F16 => "F16"@,
        DTypeView::BF16 => "BF16"@,
        DTypeView::I32 => "I32"@,
        DTypeView::I64 => "I64"@,
        DTypeView::Other(s) => s,
    }
}

/// A dtype's name reads back as the same dtype, and a name read as a dtype
/// is shown under that name; the one exception is an `Other` that carries
/// one of the listed names, which reads back as the listed dtype.
pub proof fn lemma_dtype_name_round_trip(d: DTypeView, name: Seq<char>)
    ensures
        (d matches DTypeView::Other(s) ==> dtype_from_name(s) is Other) ==> dtype_from_name(
            dtype_name(d),
        ) == d,
        dtype_name(dtype_from_name(name)) == name,
{
    reveal_strlit("F32");
    reveal_strlit("F16");
    reveal_strlit("BF16");
    reveal_strlit("I32");
    reveal_strlit("I64");
    assert("F16"@ != "F32"@ && "I32"@ != "F32"@ && "I64"@ != "F32"@ && "I64"@ != "I32"@
        && "I32"@ != "F16"@ && "I64"@ != "F16"@) by {
        assert("F16"@[1] != "F32"@[1] && "I32"@[0] != "F32"@[0] && "I64"@[0] != "F32"@[0]);
        assert("I64"@[1] != "I32"@[1] && "I32"@[0] != "F16"@[0] && "I64"@[0] != "F16"@[0]);
    }
    match d {
        DTypeView::F32 => {},
        DTypeView::F16 => {},
        DTypeView::BF16 => {
            assert("BF16"@.len() == 4);
        },
        DTypeView::I32 => {},
        DTypeView::I64 => {},
        DTypeView::Other(s) => {},
    }
}

/// The dtype names: `F32`, `F16`, `BF16`, `I32` and `I64` denote those
/// dtypes, and each dtype is shown under its name.
pub proof fn lemma_dtype_names()
    ensures
        dtype_from_name("F32"@) == DTypeView::F32 && dtype_name(DTypeView::F32) == "F32"@,
        dtype_from_name("F16"@) == DTypeView::F16 && dtype_name(DTypeView::F16) == "F16"@,
        dtype_from_name("BF16"@) == DTypeView::BF16 && dtype_name(DTypeView::BF16) == "BF16"@,
        dtype_from_name("I32"@) == DTypeView::I32 && dtype_name(DTypeView::I32) == "I32"@,
        dtype_from_name("I64"@) == DTypeView::I64 && dtype_name(DTypeView::I64) == "I64"@,
{
    lemma_dtype_name_round_trip(DTypeView::F16, "F16"@);
    lemma_dtype_name_round_trip(DTypeView::BF16, "BF16"@);
    lemma_dtype_name_round_trip(DTypeView::I32, "I32"@);
    lemma_dtype_name_round_trip(DTypeView::I64, "I64"@);
}

impl DType {
    /// The dtype that a safetensors dtype name denotes; unlisted names are kept
    /// as `Other`.
    pub fn from_name(value: &str) -> (r: DType)
        ensures
            r@ == dtype_from_name(value@),
    {
        if str_eq(value, "F32") {
            DType::F32
        } else if str_eq(value, "F16") {
            DType::F16
        } else if str_eq(value, "BF16") {
            DType::BF16
        } else if str_eq(value, "I32") {
            DType::I32
        } else if str_eq(value, "I64") {
            DType::I64
        } else {
            DType::Other(value.to_owned())
        }
    }

    /// The name of this dtype.
    pub fn name(&self) -> (r: String)
        ensures
            r@ == dtype_name(self@),
    {
        match self {
            DType::F32 => "F32".to_owned(),
            DType::F16 => "F16".to_owned(),
            DType::BF16 => "BF16".to_owned(),
            DType::I32 => "I32".to_owned(),
            DType::I64 => "I64".to_owned(),
            DType::Other(s) => s.clone(),
        }
    }

    /// Whether tensors of this type must be converted before quantization.
    pub fn needs_conversion(&self) -> (r: bool)
        ensures
            r == (self@ is BF16),
    {
        match self {
            DType::BF16 => true,
            _ => false,
        }
    }
}

/// Name, shape, dtype and byte size of one tensor of a safetensors file.
#[derive(Debug, Clone)]
pub struct TensorInfo {
    pub name: String,
    pub shape: Vec<usize>,
    pub dtype: DType,
    pub byte_size: usize,
}

/// The product of the dimensions of `shape`, computed from the first.
pub fn shape_num_elements(shape: &[usize]) -> (r: usize)
    requires
        product_fits(shape@),
    ensures
        r == shape_product(shape@),
{
    let mut p: usize = 1;
    let mut i: usize = 0;
    assert(shape@.take(0) == Seq::<usize>::empty());
    while i < shape.len()
        invariant
            0 <= i <= shape.len(),
            product_fits(shape@),
            p == shape_product(shape@.take(i as int)),
        decreases shape.len() - i,
    {
        assert(shape@.take(i + 1).drop_last() == shape@.take(i as int));
        assert(shape_product(shape@.take(i + 1)) <= usize::MAX);
        p = p * shape[i];
        i = i + 1;
    }
    assert(shape@.take(shape.len() as int) == shape@);
    p
}

impl TensorInfo {
    /// The number of elements: the product of the dimensions.
    pub fn num_elements(&self) -> (r: usize)
        requires
            product_fits(self.shape@),
        ensures
            r == shape_product(self.shape@),
    {
        shape_num_elements(self.shape.as_slice())
    }
}

/// A copy of a list of dimensions.
pub(crate) fn copy_usizes(v: &Vec<usize>) -> (r: Vec<usize>)
    ensures
        r@ == v@,
{
    let mut r: Vec<usize> = Vec::with_capacity(v.len());
    let mut i: usize = 0;
    while i < v.len()
        invariant
            0 <= i <= v.len(),
            r@ == v@.take(i as int),
        decreases v.len() - i,
    {
        r.push(v[i]);
        i = i + 1;
    }
    assert(v@.take(v.len() as int) == v@);
    r
}

/// The info of each tensor entry.
pub open spec fn info_matches(info: TensorInfo, e: (Seq<char>, Seq<usize>, Seq<u8>)) -> bool {
    &&& info.dtype@ == dtype_from_name(e.0)
    &&& info.shape@ == e.1
    &&& info.byte_size == e.2.len()
}

/// `infos` describes every tensor of `contents` once: its name, dtype,
/// shape and byte size.
pub open spec fn infos_describe(
    infos: Seq<TensorInfo>,
    contents: Map<Seq<char>, (Seq<char>, Seq<usize>, Seq<u8>)>,
) -> bool {
    &&& infos.len() == contents.dom().len()
    &&& forall|i: int|
        0 <= i < infos.len() ==> #[trigger] contents.contains_key(infos[i].name@) && info_matches(
            infos[i],
            contents[infos[i].name@],
        )
    &&& forall|k: Seq<char>|
        contents.contains_key(k) ==> exists|i: int| 0 <= i < infos.len() && #[trigger] infos[i].name@ == k
    &&& forall|i: int, j: int|
        0 <= i < infos.len() && 0 <= j < infos.len() && i != j ==> infos[i].name@ != infos[j].name@
}

/// Name, shape, dtype and byte size of every tensor of a parsed safetensors
/// file, each once, in the order in which the file's index is walked.
pub fn inspect_tensors(tensors: &SafeTensors) -> (r: Result<Vec<TensorInfo>, Error>)
    ensures
        r matches Ok(infos) && infos_describe(infos@, safetensors_contents(*tensors)),
{
    let entries = safetensors_entries(tensors);
    let ghost contents = safetensors_contents(*tensors);
    let mut infos: Vec<TensorInfo> = Vec::new();
    let mut i: usize = 0;
    while i < entries.len()
        invariant
            0 <= i <= entries.len(),
            enumerates(entries@, contents),
            infos@.len() == i,
            forall|j: int|
                0 <= j < i ==> #[trigger] infos@[j].name@ == entries@[j].name@ && info_matches(
                    infos@[j],
                    contents[entries@[j].name@],
                ),
        decreases entries.len() - i,
    {
        let e = &entries[i];
        assert(contents.contains_key(entries@[i as int].name@));
        let dtype = DType::from_name(e.dtype_name.as_str());
        let shape = copy_usizes(&e.shape);
        infos.push(TensorInfo { name: e.name.clone(), shape, dtype, byte_size: e.data.len() });
        i = i + 1;
    }
    proof {
        lemma_enumeration_len(entries@, contents);
        assert forall|k: Seq<char>| contents.contains_key(k) implies exists|i: int|
            0 <= i < infos@.len() && #[trigger] infos@[i].name@ == k by {
            let i = choose|i: int| 0 <= i < entries@.len() && #[trigger] entries@[i].name@ == k;
            assert(infos@[i].name@ == k);
        }
        assert forall|i: int| 0 <= i < infos@.len() implies #[trigger] contents.contains_key(
            infos@[i].name@,
        ) && info_matches(infos@[i], contents[infos@[i].name@]) by {
            assert(infos@[i].name@ == entries@[i].name@);
        }
        assert forall|i: int, j: int|
            0 <= i < infos@.len() && 0 <= j < infos@.len() && i != j implies infos@[i].name@
            != infos@[j].name@ by {
            assert(infos@[i].name@ == entries@[i].name@);
            assert(infos@[j].name@ == entries@[j].name@);
        }
    }
    Ok(infos)
}

/// Name, shape, dtype and byte size of every tensor of the safetensors file
/// held in `bytes`; a parse error (`InvalidSafetensors` or
/// `SafetensorsDataOverflow`) exactly where the bytes are not such a file.
pub fn inspect_tensor_bytes(bytes: &[u8]) -> (r: Result<Vec<TensorInfo>, Error>)
    ensures
        r is Err <==> safetensors_parsed(bytes@) is None,
        r matches Err(e) ==> is_parse_error(e),
        r matches Ok(infos) ==> safetensors_parsed(bytes@) matches Some(contents) && infos_describe(
            infos@,
            contents,
        ),
{
    match parse_safetensors(bytes) {
        Ok(st) => inspect_tensors(&st),
        Err(e) => Err(e),
    }
}

/// An enumeration lists as many tensors as the file holds.
pub(crate) proof fn lemma_enumeration_len(
    entries: Seq<TensorEntry<'_>>,
    contents: Map<Seq<char>, (Seq<char>, Seq<usize>, Seq<u8>)>,
)
    requires
        enumerates(entries, contents),
    ensures
        contents.dom().finite(),
        entries.len() == contents.dom().len(),
{
    let names = entries.map_values(|e: TensorEntry| e.name@);
    assert(names.no_duplicates()) by {
        assert forall|i: int, j: int|
            0 <= i < names.len() && 0 <= j < names.len() && i != j implies names[i] != names[j] by {
            assert(names[i] == entries[i].name@);
            assert(names[j] == entries[j].name@);
        }
    }
    assert(names.to_set() =~= contents.dom()) by {
        assert forall|k: Seq<char>| names.to_set().contains(k) implies contents.dom().contains(k) by {
            let i = choose|i: int| 0 <= i < names.len() && names[i] == k;
            assert(contents.contains_key(entries[i].name@));
        }
        assert forall|k: Seq<char>| contents.dom().contains(k) implies names.to_set().contains(k) by {
            let i = choose|i: int| 0 <= i < entries.len() && #[trigger] entries[i].name@ == k;
            assert(names[i] == k);
        }
    }
    names.unique_seq_to_set();
}

} // verus!
