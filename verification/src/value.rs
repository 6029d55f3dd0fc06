//! The tensor value variant and the string tensor decoding path.
//!
//! A [`Value`] wraps one engine-owned tensor handle together with its element
//! kind and shape.  Numeric buffers live in engine memory and are read there
//! by the surrounding code; string tensors have a dedicated decoded form, the
//! [`StringContainer`], built from the byte buffer and offset table the
//! engine reports.

use vstd::prelude::*;

use crate::error::Error;
use crate::type_info::{spec_dtype_of_code, TensorDataType, ONNX_TYPE_TENSOR};
use crate::{ResourceKind, Wrapper};
use vstd::slice::slice_subrange;
use vstd::string::{StrSliceExecFns, StringSliceAdditionalSpecFns};
use vstd::utf8::{decode_utf8, encode_utf8, valid_utf8};

verus! {

/// One engine-owned tensor: its handle and its shape.
///
/// The element kind is carried by the [`Tensor`] variant around the `Data`,
/// exactly one variant per kind.
#[derive(Debug)]
pub struct Data {
    value: Wrapper,
    shape: Vec<usize>,
}

impl Data {
    /// The handle of the engine value backing this tensor.
    pub closed spec fn spec_value(&self) -> Wrapper {
        self.value
    }

    /// The shape of this tensor.
    pub closed spec fn spec_shape(&self) -> Seq<usize> {
        self.shape@
    }

    /// Binds a tensor-value handle to its shape.
    pub fn new(value: Wrapper, shape: Vec<usize>) -> (r: Self)
        requires
            value.wf(),
            value.spec_kind() == ResourceKind::Value,
        ensures
            r.spec_value() == value,
            r.spec_shape() == shape@,
    {
        Data { value, shape }
    }

    /// The shape.
    pub fn shape(&self) -> (r: &Vec<usize>)
        ensures
            r@ == self.spec_shape(),
    {
        &self.shape
    }

    /// The backing handle.
    pub fn value(&self) -> (r: &Wrapper)
        ensures
            *r == self.spec_value(),
    {
        &self.value
    }

    /// Gives up the backing handle, for release.
    pub fn into_wrapper(self) -> (r: Wrapper)
        ensures
            r == self.spec_value(),
    {
        self.value
    }
}

/// A tensor tagged by its element kind.
#[derive(Debug)]
pub enum Tensor {
    U8(Data),
    U16(Data),
    U32(Data),
    U64(Data),
    I8(Data),
    I16(Data),
    I32(Data),
    I64(Data),
    F64(Data),
    F32(Data),
    Bool(Data),
    String(Data),
}

impl Tensor {
    /// The element kind of this tensor.
    pub open spec fn spec_dtype(&self) -> TensorDataType {
        match self {
            Tensor::U8(_) => TensorDataType::U8,
            Tensor::U16(_) => TensorDataType::U16,
            Tensor::U32(_) => TensorDataType::U32,
            Tensor::U64(_) => TensorDataType::U64,
            Tensor::I8(_) => TensorDataType::I8,
            Tensor::I16(_) => TensorDataType::I16,
            Tensor::I32(_) => TensorDataType::I32,
            Tensor::I64(_) => TensorDataType::I64,
            Tensor::F64(_) => TensorDataType::F64,
            Tensor::F32(_) => TensorDataType::F32,
            Tensor::Bool(_) => TensorDataType::Bool,
            Tensor::String(_) => TensorDataType::String,
        }
    }

    /// The data record inside this tensor.
    pub open spec fn spec_data(&self) -> Data {
        match self {
            Tensor::U8(d) => *d,
            Tensor::U16(d) => *d,
            Tensor::U32(d) => *d,
            Tensor::U64(d) => *d,
            Tensor::I8(d) => *d,
            Tensor::I16(d) => *d,
            Tensor::I32(d) => *d,
            Tensor::I64(d) => *d,
            Tensor::F64(d) => *d,
            Tensor::F32(d) => *d,
            Tensor::Bool(d) => *d,
            Tensor::String(d) => *d,
        }
    }

    /// Wraps a data record in the variant for the given element kind.
    pub fn new(dtype: TensorDataType, data: Data) -> (r: Self)
        ensures
            r.spec_dtype() == dtype,
            r.spec_data() == data,
    {
        match dtype {
            TensorDataType::U8 => Tensor::U8(data),
            TensorDataType::U16 => Tensor::U16(data),
            TensorDataType::U32 => Tensor::U32(data),
            TensorDataType::U64 => Tensor::U64(data),
            TensorDataType::I8 => Tensor::I8(data),
            TensorDataType::I16 => Tensor::I16(data),
            TensorDataType::I32 => Tensor::I32(data),
            TensorDataType::I64 => Tensor::I64(data),
            TensorDataType::F64 => Tensor::F64(data),
            TensorDataType::F32 => Tensor::F32(data),
            TensorDataType::Bool => Tensor::Bool(data),
            TensorDataType::String => Tensor::String(data),
        }
    }

    /// The element kind.
    pub fn dtype(&self) -> (r: TensorDataType)
        ensures
            r == self.spec_dtype(),
    {
        match self {
            Tensor::U8(_) => TensorDataType::U8,
            Tensor::U16(_) => TensorDataType::U16,
            Tensor::U32(_) => TensorDataType::U32,
            Tensor::U64(_) => TensorDataType::U64,
            Tensor::I8(_) => TensorDataType::I8,
            Tensor::I16(_) => TensorDataType::I16,
            Tensor::I32(_) => TensorDataType::I32,
            Tensor::I64(_) => TensorDataType::I64,
            Tensor::F64(_) => TensorDataType::F64,
            Tensor::F32(_) => TensorDataType::F32,
            Tensor::Bool(_) => TensorDataType::Bool,
            Tensor::String(_) => TensorDataType::String,
        }
    }

    /// The data record.
    pub fn data(&self) -> (r: &Data)
        ensures
            *r == self.spec_data(),
    {
        match self {
            Tensor::U8(d) => d,
            Tensor::U16(d) => d,
            Tensor::U32(d) => d,
            Tensor::U64(d) => d,
            Tensor::I8(d) => d,
            Tensor::I16(d) => d,
            Tensor::I32(d) => d,
            Tensor::I64(d) => d,
            Tensor::F64(d) => d,
            Tensor::F32(d) => d,
            Tensor::Bool(d) => d,
            Tensor::String(d) => d,
        }
    }

    /// Gives up the data record.
    pub fn into_data(self) -> (r: Data)
        ensures
            r == self.spec_data(),
    {
        match self {
            Tensor::U8(d) => d,
            Tensor::U16(d) => d,
            Tensor::U32(d) => d,
            Tensor::U64(d) => d,
            Tensor::I8(d) => d,
            Tensor::I16(d) => d,
            Tensor::I32(d) => d,
            Tensor::I64(d) => d,
            Tensor::F64(d) => d,
            Tensor::F32(d) => d,
            Tensor::Bool(d) => d,
            Tensor::String(d) => d,
        }
    }
}

/// One value exchanged with the engine.  Only the tensor container kind is
/// supported; other container kinds never construct a `Value`.
#[derive(Debug)]
pub enum Value {
    Tensor(Tensor),
}

impl Value {
    /// The tensor inside this value.
    pub open spec fn spec_tensor(&self) -> Tensor {
        match self {
            Value::Tensor(t) => *t,
        }
    }

    /// The handle of the engine value backing this tensor, for handing to an
    /// engine call.
    pub fn ref_ort_value(&self) -> (r: &Wrapper)
        ensures
            *r == self.spec_tensor().spec_data().spec_value(),
    {
        match self {
            Value::Tensor(t) => t.data().value(),
        }
    }
}

impl Wrapper {
    /// Decodes an engine-owned value handle into the matching tensor variant,
    /// from the container kind code, element type code and shape that the
    /// engine reports for it.
    ///
    /// An unrecognized element type or a non-tensor container kind is a
    /// failure, not a crash; the handle is handed back beside the error so
    /// that its owner can still release it.
    pub fn into_value(self, onnx_type: u32, dtype_code: u32, shape: Vec<usize>) -> (r: Result<
        Value,
        (Wrapper, Error),
    >)
        requires
            self.wf(),
            self.spec_kind() == ResourceKind::Value,
        ensures
            onnx_type != ONNX_TYPE_TENSOR ==> r == Err::<Value, (Wrapper, Error)>(
                (self, Error::UnsupportedContainerKind(onnx_type)),
            ),
            onnx_type == ONNX_TYPE_TENSOR && spec_dtype_of_code(dtype_code) is None ==> r
                == Err::<Value, (Wrapper, Error)>((self, Error::UnsupportedDType(dtype_code))),
            onnx_type == ONNX_TYPE_TENSOR && spec_dtype_of_code(dtype_code) is Some ==> ({
                &&& r matches Ok(Value::Tensor(t))
                &&& t.spec_dtype() == spec_dtype_of_code(dtype_code).unwrap()
                &&& t.spec_data().spec_value() == self
                &&& t.spec_data().spec_shape() == shape@
            }),
    {
        if onnx_type != ONNX_TYPE_TENSOR {
            return Err((self, Error::UnsupportedContainerKind(onnx_type)));
        }
        match TensorDataType::from_onnx_tensor_element_data_type(dtype_code) {
            Ok(dtype) => Ok(Value::Tensor(Tensor::new(dtype, Data::new(self, shape)))),
            Err(e) => Err((self, e)),
        }
    }
}

/// The number of elements a shape describes: the product of its axes.
pub open spec fn spec_element_count(shape: Seq<usize>) -> nat
    decreases shape.len(),
{
    if shape.len() == 0 {
        1
    } else {
        spec_element_count(shape.drop_last()) * (shape.last() as nat)
    }
}

/// Whether every prefix of the shape has a product that fits in `usize`,
/// which is what a left-to-right product computation needs.
pub open spec fn prefix_products_fit(shape: Seq<usize>) -> bool {
    forall|i: int|
        0 <= i <= shape.len() ==> #[trigger] spec_element_count(shape.take(i)) <= usize::MAX
}

/// Multiplies out a shape, reporting `None` when an intermediate product
/// overflows.
pub fn element_count(shape: &Vec<usize>) -> (r: Option<usize>)
    ensures
        r is Some <==> prefix_products_fit(shape@),
        r is Some ==> r.unwrap() == spec_element_count(shape@),
{
    let mut acc: usize = 1;
    let mut i: usize = 0;
    proof {
        assert(shape@.take(0) =~= Seq::<usize>::empty());
    }
    while i < shape.len()
        invariant
            i <= shape@.len(),
            acc == spec_element_count(shape@.take(i as int)),
            forall|j: int| 0 <= j <= i ==> #[trigger] spec_element_count(shape@.take(j)) <= usize::MAX,
        decreases shape@.len() - i,
    {
        proof {
            assert(shape@.take(i + 1).drop_last() =~= shape@.take(i as int));
            assert(shape@.take(i + 1).last() == shape@[i as int]);
        }
        match acc.checked_mul(shape[i]) {
            Some(next) => {
                acc = next;
            },
            None => {
                proof {
                    assert(spec_element_count(shape@.take(i + 1)) > usize::MAX);
                }
                return None;
            },
        }
        i = i + 1;
    }
    proof {
        assert(shape@.take(shape@.len() as int) =~= shape@);
    }
    Some(acc)
}

/// Where element `i`'s bytes end in a string tensor buffer: at the next
/// element's offset, or at the end of the buffer for the last element.
pub open spec fn element_range_end(byte_offsets: Seq<usize>, buf_len: nat, i: int) -> int {
    if i + 1 < byte_offsets.len() {
        byte_offsets[i + 1] as int
    } else {
        buf_len as int
    }
}

/// The bytes of element `i` in a string tensor buffer.
pub open spec fn element_bytes(buffer: Seq<u8>, byte_offsets: Seq<usize>, i: int) -> Seq<u8> {
    buffer.subrange(byte_offsets[i] as int, element_range_end(byte_offsets, buffer.len(), i))
}

/// A well-formed offset table: every offset stays inside the buffer and the
/// offsets do not decrease, so each element's byte range is valid.
pub open spec fn wf_offsets(byte_offsets: Seq<usize>, buf_len: nat) -> bool {
    forall|i: int|
        0 <= i < byte_offsets.len() ==> (#[trigger] byte_offsets[i]) <= buf_len && (i + 1
            < byte_offsets.len() ==> byte_offsets[i] <= byte_offsets[i + 1])
}

/// Relies on `std::str::from_utf8`: it succeeds exactly on well-formed
/// UTF-8 and then returns the string slice over those same bytes.
#[verifier::external_body]
fn bytes_to_str(v: &[u8]) -> (r: Option<&str>)
    ensures
        r is Some <==> valid_utf8(v@),
        r is Some ==> r.unwrap().spec_bytes() == v@,
{
    std::str::from_utf8(v).ok()
}

/// The decoded form of a string tensor: a contiguous byte buffer and the
/// byte offset at which each element starts.  Element `i` occupies
/// `buffer[offsets[i] .. offsets[i + 1]]`, the last element running to the
/// end of the buffer.  The strings are not null-terminated in this form,
/// even though they are null-terminated when written to the engine.
#[derive(Debug, Clone, PartialEq, Eq)]
pub struct StringContainer {
    contiguous_buffer: Vec<u8>,
    byte_offsets: Vec<usize>,
    shape: Vec<usize>,
}

impl StringContainer {
    /// The contiguous byte buffer.
    pub closed spec fn spec_buffer(&self) -> Seq<u8> {
        self.contiguous_buffer@
    }

    /// The offset table.
    pub closed spec fn spec_offsets(&self) -> Seq<usize> {
        self.byte_offsets@
    }

    /// The shape.
    pub closed spec fn spec_shape(&self) -> Seq<usize> {
        self.shape@
    }

    /// A container is well formed when its offset table is well formed for
    /// its buffer and has one entry per element of its shape.
    pub open spec fn wf(&self) -> bool {
        &&& wf_offsets(self.spec_offsets(), self.spec_buffer().len())
        &&& prefix_products_fit(self.spec_shape())
        &&& self.spec_offsets().len() == spec_element_count(self.spec_shape())
    }

    /// Builds a container from the buffer and offset table the engine
    /// reported for a string tensor of the given shape, validating that the
    /// offsets are well formed and that their count matches the shape.
    pub fn new(contiguous_buffer: Vec<u8>, byte_offsets: Vec<usize>, shape: Vec<usize>) -> (r:
        Result<Self, Error>)
        ensures
            r is Ok <==> (wf_offsets(byte_offsets@, contiguous_buffer@.len())
                && prefix_products_fit(shape@) && byte_offsets@.len() == spec_element_count(
                shape@,
            )),
            r matches Ok(c) ==> c.spec_buffer() == contiguous_buffer@ && c.spec_offsets()
                == byte_offsets@ && c.spec_shape() == shape@ && c.wf(),
            r matches Err(e) ==> e is Validation,
    {
        let n_elements = match element_count(&shape) {
            Some(n) => n,
            None => {
                return Err(Error::new_validation(
                    "string tensor shape is too large".to_owned(),
                ));
            },
        };
        if byte_offsets.len() != n_elements {
            return Err(Error::new_validation(
                "string tensor offset table does not match the shape".to_owned(),
            ));
        }
        let n = byte_offsets.len();
        let mut i: usize = 0;
        while i < n
            invariant
                n == byte_offsets@.len(),
                i <= n,
                forall|j: int|
                    0 <= j < i ==> (#[trigger] byte_offsets@[j]) <= contiguous_buffer@.len() && (j
                        + 1 < n ==> byte_offsets@[j] <= byte_offsets@[j + 1]),
            decreases n - i,
        {
            if byte_offsets[i] > contiguous_buffer.len() {
                return Err(Error::new_validation(
                    "string tensor offset lies outside the buffer".to_owned(),
                ));
            }
            if i + 1 < n {
                if byte_offsets[i] > byte_offsets[i + 1] {
                    return Err(Error::new_validation(
                        "string tensor offsets decrease".to_owned(),
                    ));
                }
            }
            i = i + 1;
        }
        Ok(StringContainer { contiguous_buffer, byte_offsets, shape })
    }

    /// The shape of the decoded tensor.
    pub fn shape(&self) -> (r: &Vec<usize>)
        ensures
            r@ == self.spec_shape(),
    {
        &self.shape
    }

    /// Reconstructs the individual strings by slicing the buffer at the
    /// offset table, in element order.  Fails if any element's bytes are not
    /// well-formed UTF-8.
    pub fn array(&self) -> (r: Result<Vec<String>, Error>)
        requires
            self.wf(),
        ensures
            r is Ok <==> (forall|i: int|
                0 <= i < self.spec_offsets().len() ==> valid_utf8(
                    #[trigger] element_bytes(self.spec_buffer(), self.spec_offsets(), i),
                )),
            r matches Ok(v) ==> v@.len() == self.spec_offsets().len() && (forall|i: int|
                0 <= i < v@.len() ==> (#[trigger] v@[i])@ == decode_utf8(
                    element_bytes(self.spec_buffer(), self.spec_offsets(), i),
                )),
            r matches Err(e) ==> e is Validation,
    {
        let n = self.byte_offsets.len();
        let mut out: Vec<String> = Vec::new();
        let mut i: usize = 0;
        while i < n
            invariant
                self.wf(),
                n == self.spec_offsets().len(),
                i <= n,
                out@.len() == i,
                forall|j: int|
                    0 <= j < i ==> valid_utf8(
                        #[trigger] element_bytes(self.spec_buffer(), self.spec_offsets(), j),
                    ),
                forall|j: int|
                    0 <= j < i ==> (#[trigger] out@[j])@ == decode_utf8(
                        element_bytes(self.spec_buffer(), self.spec_offsets(), j),
                    ),
            decreases n - i,
        {
            let start = self.byte_offsets[i];
            let stop = if i + 1 < n {
                self.byte_offsets[i + 1]
            } else {
                self.contiguous_buffer.len()
            };
            let piece = slice_subrange(self.contiguous_buffer.as_slice(), start, stop);
            match bytes_to_str(piece) {
                Some(s) => {
                    proof {
                        vstd::utf8::encode_utf8_decode_utf8(s@);
                    }
                    out.push(s.to_owned());
                },
                None => {
                    proof {
                        assert(piece@ == element_bytes(
                            self.spec_buffer(),
                            self.spec_offsets(),
                            i as int,
                        ));
                    }
                    return Err(Error::new_validation(
                        "string tensor bytes are not valid UTF-8".to_owned(),
                    ));
                },
            }
            i = i + 1;
        }
        Ok(out)
    }
}

impl Data {
    /// Assembles the decoded form of this string tensor from the byte buffer
    /// and offset table the engine reported for it, keeping this tensor's
    /// shape.
    pub fn str_container(&self, contiguous_buffer: Vec<u8>, byte_offsets: Vec<usize>) -> (r: Result<
        StringContainer,
        Error,
    >)
        ensures
            r is Ok <==> (wf_offsets(byte_offsets@, contiguous_buffer@.len())
                && prefix_products_fit(self.spec_shape()) && byte_offsets@.len()
                == spec_element_count(self.spec_shape())),
            r matches Ok(c) ==> c.spec_buffer() == contiguous_buffer@ && c.spec_offsets()
                == byte_offsets@ && c.spec_shape() == self.spec_shape() && c.wf(),
            r matches Err(e) ==> e is Validation,
    {
        let mut shape: Vec<usize> = Vec::new();
        let mut i: usize = 0;
        while i < self.shape.len()
            invariant
                i <= self.shape@.len(),
                shape@ == self.shape@.take(i as int),
            decreases self.shape@.len() - i,
        {
            shape.push(self.shape[i]);
            i = i + 1;
        }
        proof {
            assert(self.shape@.take(self.shape@.len() as int) =~= self.shape@);
        }
        StringContainer::new(contiguous_buffer, byte_offsets, shape)
    }
}

/// The byte sequences handed to the engine when a string tensor is written:
/// each string's UTF-8 bytes with a null terminator appended.  Fails if any
/// string itself contains a null byte.
pub fn string_tensor_payload(data: &Vec<String>) -> (r: Result<Vec<Vec<u8>>, Error>)
    ensures
        r is Ok <==> (forall|i: int|
            0 <= i < data@.len() ==> !(#[trigger] encode_utf8(data@[i]@)).contains(0u8)),
        r matches Ok(v) ==> v@.len() == data@.len() && (forall|i: int|
            0 <= i < data@.len() ==> (#[trigger] v@[i])@ == encode_utf8(data@[i]@) + seq![0u8]),
        r matches Err(e) ==> e is Validation,
{
    let n = data.len();
    let mut out: Vec<Vec<u8>> = Vec::new();
    let mut i: usize = 0;
    while i < n
        invariant
            n == data@.len(),
            i <= n,
            out@.len() == i,
            forall|j: int| 0 <= j < i ==> !(#[trigger] encode_utf8(data@[j]@)).contains(0u8),
            forall|j: int|
                0 <= j < i ==> (#[trigger] out@[j])@ == encode_utf8(data@[j]@) + seq![0u8],
        decreases n - i,
    {
        let mut bytes = data[i].as_str().as_bytes_vec();
        let m = bytes.len();
        let mut j: usize = 0;
        while j < m
            invariant
                m == bytes@.len(),
                j <= m,
                bytes@ == encode_utf8(data@[i as int]@),
                i < data@.len(),
                forall|k: int| 0 <= k < j ==> bytes@[k] != 0u8,
            decreases m - j,
        {
            if bytes[j] == 0 {
                proof {
                    assert(encode_utf8(data@[i as int]@).contains(0u8)) by {
                        assert(encode_utf8(data@[i as int]@)[j as int] == 0u8);
                    }
                }
                return Err(Error::new_validation(
                    "string contains a null byte".to_owned(),
                ));
            }
            j = j + 1;
        }
        proof {
            assert(!encode_utf8(data@[i as int]@).contains(0u8)) by {
                if encode_utf8(data@[i as int]@).contains(0u8) {
                    let k = choose|k: int|
                        0 <= k < encode_utf8(data@[i as int]@).len() && encode_utf8(
                            data@[i as int]@,
                        )[k] == 0u8;
                    assert(bytes@[k] != 0u8);
                }
            }
        }
        bytes.push(0u8);
        out.push(bytes);
        i = i + 1;
    }
    Ok(out)
}

/// Each string's stored bytes, in element order: the engine keeps the
/// written strings' UTF-8 bytes, without their null terminators.
pub open spec fn encoded_parts(strs: Seq<Seq<char>>) -> Seq<Seq<u8>> {
    strs.map_values(|s: Seq<char>| encode_utf8(s))
}

/// The contiguous buffer the engine reports for a string tensor: the stored
/// byte sequences, concatenated in element order.
pub open spec fn stored_content(parts: Seq<Seq<u8>>) -> Seq<u8>
    decreases parts.len(),
{
    if parts.len() == 0 {
        Seq::empty()
    } else {
        parts.first() + stored_content(parts.drop_first())
    }
}

/// The byte offset at which element `i` starts in the contiguous buffer:
/// the total length of the elements before it.
pub open spec fn start_offset(parts: Seq<Seq<u8>>, i: int) -> int
    decreases i,
{
    if i <= 0 {
        0
    } else {
        start_offset(parts, i - 1) + parts[i - 1].len()
    }
}

proof fn lemma_start_offset_nonneg(parts: Seq<Seq<u8>>, i: int)
    ensures
        start_offset(parts, i) >= 0,
    decreases i,
{
    if i > 0 {
        lemma_start_offset_nonneg(parts, i - 1);
    }
}

proof fn lemma_start_offset_monotonic(parts: Seq<Seq<u8>>, i: int, j: int)
    requires
        i <= j,
    ensures
        start_offset(parts, i) <= start_offset(parts, j),
    decreases j - i,
{
    if i < j {
        lemma_start_offset_monotonic(parts, i, j - 1);
    }
}

proof fn lemma_start_offset_shift(parts: Seq<Seq<u8>>, i: int)
    requires
        parts.len() > 0,
        0 <= i < parts.len(),
    ensures
        start_offset(parts, i + 1) == parts.first().len() + start_offset(parts.drop_first(), i),
    decreases i,
{
    if i > 0 {
        lemma_start_offset_shift(parts, i - 1);
        assert(parts[i as int] == parts.drop_first()[i - 1]);
        assert(start_offset(parts, i + 1) == start_offset(parts, i) + parts[i as int].len());
        assert(start_offset(parts.drop_first(), i) == start_offset(parts.drop_first(), i - 1)
            + parts.drop_first()[i - 1].len());
    } else {
        assert(start_offset(parts, 1) == start_offset(parts, 0) + parts[0].len());
        assert(start_offset(parts.drop_first(), 0) == 0);
        assert(parts.first() == parts[0]);
    }
}

proof fn lemma_stored_content_len(parts: Seq<Seq<u8>>)
    ensures
        stored_content(parts).len() == start_offset(parts, parts.len() as int),
    decreases parts.len(),
{
    if parts.len() > 0 {
        lemma_stored_content_len(parts.drop_first());
        lemma_start_offset_shift(parts, parts.len() - 1);
    }
}

proof fn lemma_stored_content_slice(parts: Seq<Seq<u8>>, i: int)
    requires
        0 <= i < parts.len(),
    ensures
        0 <= start_offset(parts, i),
        start_offset(parts, i + 1) == start_offset(parts, i) + parts[i].len(),
        start_offset(parts, i + 1) <= stored_content(parts).len(),
        stored_content(parts).subrange(start_offset(parts, i), start_offset(parts, i + 1))
            == parts[i],
    decreases i,
{
    lemma_start_offset_nonneg(parts, i);
    lemma_stored_content_len(parts);
    lemma_start_offset_monotonic(parts, i + 1, parts.len() as int);
    if i == 0 {
        assert(stored_content(parts).subrange(0, parts[0].len() as int) =~= parts[0]);
    } else {
        let rest = parts.drop_first();
        lemma_stored_content_slice(rest, i - 1);
        lemma_start_offset_shift(parts, i - 1);
        lemma_start_offset_shift(parts, i);
        let a = parts.first();
        let lo = start_offset(rest, i - 1);
        let hi = start_offset(rest, i);
        lemma_start_offset_nonneg(rest, i - 1);
        lemma_stored_content_len(rest);
        lemma_start_offset_monotonic(rest, i, rest.len() as int);
        assert(stored_content(parts).subrange(a.len() + lo, a.len() + hi) =~= stored_content(
            rest,
        ).subrange(lo, hi));
        assert(parts[i] == rest[i - 1]);
    }
}

/// What the write path hands over determines what the engine stores:
/// stripping the terminator from each written byte sequence leaves exactly
/// the stored parts of the written strings.
pub proof fn lemma_payload_determines_parts(payload: Seq<Seq<u8>>, strs: Seq<Seq<char>>)
    requires
        payload.len() == strs.len(),
        forall|i: int|
            0 <= i < strs.len() ==> #[trigger] payload[i] == encode_utf8(strs[i]) + seq![0u8],
    ensures
        payload.map_values(|b: Seq<u8>| b.drop_last()) == encoded_parts(strs),
{
    let stripped = payload.map_values(|b: Seq<u8>| b.drop_last());
    assert forall|i: int| 0 <= i < strs.len() implies #[trigger] stripped[i] == encode_utf8(
        strs[i],
    ) by {
        assert((encode_utf8(strs[i]) + seq![0u8]).drop_last() =~= encode_utf8(strs[i]));
    }
    assert(stripped =~= encoded_parts(strs));
}

/// String round trip.  Writing a sequence of strings hands the engine each
/// string's bytes null-terminated; the engine stores the bytes contiguously
/// without the terminators and reports each element's start offset.  Slicing
/// that buffer at those offsets yields well-formed UTF-8 that decodes to the
/// original strings, in the original order.
pub proof fn lemma_string_round_trip(
    strs: Seq<Seq<char>>,
    buffer: Seq<u8>,
    byte_offsets: Seq<usize>,
)
    requires
        byte_offsets.len() == strs.len(),
        buffer == stored_content(encoded_parts(strs)),
        forall|i: int|
            0 <= i < strs.len() ==> (#[trigger] byte_offsets[i]) == start_offset(
                encoded_parts(strs),
                i,
            ),
    ensures
        wf_offsets(byte_offsets, buffer.len()),
        forall|i: int|
            0 <= i < strs.len() ==> valid_utf8(#[trigger] element_bytes(buffer, byte_offsets, i)),
        forall|i: int|
            0 <= i < strs.len() ==> decode_utf8(#[trigger] element_bytes(buffer, byte_offsets, i))
                == strs[i],
{
    let parts = encoded_parts(strs);
    lemma_stored_content_len(parts);
    assert forall|i: int| 0 <= i < strs.len() implies valid_utf8(
        #[trigger] element_bytes(buffer, byte_offsets, i),
    ) && decode_utf8(element_bytes(buffer, byte_offsets, i)) == strs[i] by {
        lemma_stored_content_slice(parts, i);
        if i + 1 < byte_offsets.len() {
            assert(element_range_end(byte_offsets, buffer.len(), i) == start_offset(parts, i + 1));
        } else {
            assert(element_range_end(byte_offsets, buffer.len(), i) == buffer.len());
            assert(start_offset(parts, i + 1) == start_offset(parts, parts.len() as int));
        }
        assert(element_bytes(buffer, byte_offsets, i) == parts[i]);
        assert(parts[i] == encode_utf8(strs[i]));
        vstd::utf8::encode_utf8_valid_utf8(strs[i]);
        vstd::utf8::encode_utf8_decode_utf8(strs[i]);
    }
    assert forall|i: int| 0 <= i < byte_offsets.len() implies (#[trigger] byte_offsets[i])
        <= buffer.len() && (i + 1 < byte_offsets.len() ==> byte_offsets[i] <= byte_offsets[i
        + 1]) by {
        lemma_start_offset_monotonic(parts, i, parts.len() as int);
        if i + 1 < byte_offsets.len() {
            lemma_start_offset_monotonic(parts, i, i + 1);
        }
    }
}

} // verus!
