//! Static type and shape description of a tensor, as the engine reports it.
//!
//! The engine describes each session input or output through a type-info
//! object.  The surrounding code copies the plain facts out of that object --
//! the container kind code, the element type code, the numeric shape and the
//! parallel symbolic shape -- into a [`RawTypeInfo`], and this module decodes
//! them into the typed model.

use vstd::prelude::*;

use crate::error::Error;

verus! {

/// Container kind code for a plain tensor in the engine's type enumeration.
pub const ONNX_TYPE_TENSOR: u32 = 1;

/// One axis of a tensor's shape.
#[derive(Debug, Clone, PartialEq, Eq)]
pub enum Dim {
    /// The axis has no length information at all.
    Unknown,
    /// The axis has a concrete length.
    Fixed(usize),
    /// The axis carries a symbolic name instead of a length.
    Dynamic(String),
}

/// The element kinds this layer exchanges with the engine.
#[derive(Debug, Clone, Copy, PartialEq, Eq, Structural)]
pub enum TensorDataType {
    U8,
    U16,
    U32,
    U64,
    I8,
    I16,
    I32,
    I64,
    F32,
    F64,
    Bool,
    String,
}

/// The engine's numeric code for an element kind.
pub open spec fn spec_onnx_code(d: TensorDataType) -> u32 {
    match d {
        TensorDataType::F32 => 1,
        TensorDataType::U8 => 2,
        TensorDataType::I8 => 3,
        TensorDataType::U16 => 4,
        TensorDataType::I16 => 5,
        TensorDataType::I32 => 6,
        TensorDataType::I64 => 7,
        TensorDataType::String => 8,
        TensorDataType::Bool => 9,
        TensorDataType::F64 => 11,
        TensorDataType::U32 => 12,
        TensorDataType::U64 => 13,
    }
}

/// The element kind for an engine code, if the code is supported.
///
/// Code 10 (a 16-bit floating kind) and every code outside the table are
/// unsupported and decode to `None`.
pub open spec fn spec_dtype_of_code(code: u32) -> Option<TensorDataType> {
    if code == 1 {
        Some(TensorDataType::F32)
    } else if code == 2 {
        Some(TensorDataType::U8)
    } else if code == 3 {
        Some(TensorDataType::I8)
    } else if code == 4 {
        Some(TensorDataType::U16)
    } else if code == 5 {
        Some(TensorDataType::I16)
    } else if code == 6 {
        Some(TensorDataType::I32)
    } else if code == 7 {
        Some(TensorDataType::I64)
    } else if code == 8 {
        Some(TensorDataType::String)
    } else if code == 9 {
        Some(TensorDataType::Bool)
    } else if code == 11 {
        Some(TensorDataType::F64)
    } else if code == 12 {
        Some(TensorDataType::U32)
    } else if code == 13 {
        Some(TensorDataType::U64)
    } else {
        None
    }
}

/// The two directions of the element-kind mapping invert each other: every
/// kind survives a round trip through its code, and every supported code
/// survives a round trip through its kind.
pub proof fn lemma_dtype_code_round_trip()
    ensures
        forall|d: TensorDataType| #[trigger] spec_dtype_of_code(spec_onnx_code(d)) == Some(d),
        forall|code: u32|
            #[trigger] spec_dtype_of_code(code) is Some ==> spec_onnx_code(
                spec_dtype_of_code(code).unwrap(),
            ) == code,
{
}

impl TensorDataType {
    /// The engine's numeric code for this element kind.
    pub fn onnx_code(&self) -> (r: u32)
        ensures
            r == spec_onnx_code(*self),
    {
        match self {
            TensorDataType::F32 => 1,
            TensorDataType::U8 => 2,
            TensorDataType::I8 => 3,
            TensorDataType::U16 => 4,
            TensorDataType::I16 => 5,
            TensorDataType::I32 => 6,
            TensorDataType::I64 => 7,
            TensorDataType::String => 8,
            TensorDataType::Bool => 9,
            TensorDataType::F64 => 11,
            TensorDataType::U32 => 12,
            TensorDataType::U64 => 13,
        }
    }

    /// Decodes an engine element-type code, failing on unsupported codes.
    pub fn from_onnx_tensor_element_data_type(id: u32) -> (r: Result<Self, Error>)
        ensures
            spec_dtype_of_code(id) is Some ==> r == Ok::<Self, Error>(
                spec_dtype_of_code(id).unwrap(),
            ),
            spec_dtype_of_code(id) is None ==> r == Err::<Self, Error>(Error::UnsupportedDType(id)),
    {
        match id {
            1 => Ok(TensorDataType::F32),
            2 => Ok(TensorDataType::U8),
            3 => Ok(TensorDataType::I8),
            4 => Ok(TensorDataType::U16),
            5 => Ok(TensorDataType::I16),
            6 => Ok(TensorDataType::I32),
            7 => Ok(TensorDataType::I64),
            8 => Ok(TensorDataType::String),
            9 => Ok(TensorDataType::Bool),
            11 => Ok(TensorDataType::F64),
            12 => Ok(TensorDataType::U32),
            13 => Ok(TensorDataType::U64),
            _ => Err(Error::UnsupportedDType(id)),
        }
    }
}

/// Element kind and shape of one tensor.
#[derive(Debug, Clone, PartialEq, Eq)]
pub struct TensorInfo {
    pub dtype: TensorDataType,
    pub shape: Vec<Dim>,
}

/// Decoded type information for one session input or output.
///
/// Only the plain tensor container kind is modeled; every other container
/// kind is rejected during decoding.
#[derive(Debug, Clone, PartialEq, Eq)]
pub enum TypeInfo {
    Tensor(TensorInfo),
}

/// The plain facts copied out of one native type-info object.
///
/// `fixed_dims` holds the numeric shape, where an axis without length
/// information reads as a sentinel (the engine uses -1); `symbolic_dims`
/// holds the parallel symbolic-name shape, one entry per axis, empty where an
/// axis has no name.
#[derive(Debug, Clone, PartialEq, Eq)]
pub struct RawTypeInfo {
    pub onnx_type: u32,
    pub dtype_code: u32,
    pub fixed_dims: Vec<i64>,
    pub symbolic_dims: Vec<String>,
}

/// The dimension decode rule, one axis at a time: a positive numeric length
/// wins; otherwise a non-empty symbolic name makes the axis dynamic;
/// otherwise the axis is unknown.
pub open spec fn dim_decodes(fixed: i64, symbolic: Seq<char>, d: Dim) -> bool {
    if fixed > 0 {
        d == Dim::Fixed(fixed as usize)
    } else if symbolic.len() > 0 {
        d matches Dim::Dynamic(s) && s@ == symbolic
    } else {
        d == Dim::Unknown
    }
}

/// Decodes one axis from its numeric length and its symbolic name.
pub fn decode_dim(fixed: i64, symbolic: &String) -> (r: Dim)
    ensures
        dim_decodes(fixed, symbolic@, r),
{
    if fixed > 0 {
        Dim::Fixed(fixed as usize)
    } else if symbolic.as_str().unicode_len() > 0 {
        Dim::Dynamic(symbolic.clone())
    } else {
        Dim::Unknown
    }
}

/// The three cases of the dimension decode rule, stated explicitly: a
/// sentinel length with an empty name is unknown, a sentinel length with a
/// name is dynamic under that name, and a positive length is fixed whatever
/// the name says.
pub proof fn lemma_dim_decode_cases(fixed: i64, symbolic: Seq<char>, d: Dim)
    requires
        dim_decodes(fixed, symbolic, d),
    ensures
        fixed <= 0 && symbolic.len() == 0 ==> d == Dim::Unknown,
        fixed <= 0 && symbolic.len() > 0 ==> (d matches Dim::Dynamic(s) && s@ == symbolic),
        fixed > 0 ==> d == Dim::Fixed(fixed as usize),
{
}

/// Whether a raw record decodes at all: it must describe a plain tensor of a
/// supported element kind.
pub open spec fn raw_decodes_ok(raw: RawTypeInfo) -> bool {
    raw.onnx_type == ONNX_TYPE_TENSOR && spec_dtype_of_code(raw.dtype_code) is Some
}

/// The error a raw record that does not decode produces: the container kind
/// is checked before the element kind.
pub open spec fn raw_decode_err(raw: RawTypeInfo) -> Error {
    if raw.onnx_type != ONNX_TYPE_TENSOR {
        Error::UnsupportedContainerKind(raw.onnx_type)
    } else {
        Error::UnsupportedDType(raw.dtype_code)
    }
}

/// What a decoded record looks like: the element kind follows the code, and
/// the shape pairs the numeric and symbolic axes in lock-step, one axis per
/// pair, up to the shorter of the two lists.
pub open spec fn type_info_decodes(raw: RawTypeInfo, t: TypeInfo) -> bool {
    &&& t matches TypeInfo::Tensor(info)
    &&& info.dtype == spec_dtype_of_code(raw.dtype_code).unwrap()
    &&& info.shape@.len() == vstd::math::min(
        raw.fixed_dims@.len() as int,
        raw.symbolic_dims@.len() as int,
    )
    &&& forall|i: int|
        0 <= i < info.shape@.len() ==> dim_decodes(
            raw.fixed_dims@[i],
            raw.symbolic_dims@[i]@,
            #[trigger] info.shape@[i],
        )
}

impl TypeInfo {
    /// Decodes one native type-info record.
    ///
    /// Fails on any container kind other than a plain tensor and on any
    /// unsupported element-type code.
    pub fn new(raw: &RawTypeInfo) -> (r: Result<Self, Error>)
        ensures
            !raw_decodes_ok(*raw) ==> r == Err::<Self, Error>(raw_decode_err(*raw)),
            raw_decodes_ok(*raw) ==> (r matches Ok(t) && type_info_decodes(*raw, t)),
    {
        if raw.onnx_type != ONNX_TYPE_TENSOR {
            return Err(Error::UnsupportedContainerKind(raw.onnx_type));
        }
        let dtype = match TensorDataType::from_onnx_tensor_element_data_type(raw.dtype_code) {
            Ok(d) => d,
            Err(e) => {
                return Err(e);
            },
        };
        let n = if raw.fixed_dims.len() <= raw.symbolic_dims.len() {
            raw.fixed_dims.len()
        } else {
            raw.symbolic_dims.len()
        };
        let mut shape: Vec<Dim> = Vec::new();
        let mut i: usize = 0;
        while i < n
            invariant
                n == vstd::math::min(raw.fixed_dims@.len() as int, raw.symbolic_dims@.len() as int),
                i <= n,
                shape@.len() == i,
                forall|j: int|
                    0 <= j < i ==> dim_decodes(
                        raw.fixed_dims@[j],
                        raw.symbolic_dims@[j]@,
                        #[trigger] shape@[j],
                    ),
            decreases n - i,
        {
            let d = decode_dim(raw.fixed_dims[i], &raw.symbolic_dims[i]);
            shape.push(d);
            i = i + 1;
        }
        Ok(TypeInfo::Tensor(TensorInfo { dtype, shape }))
    }
}

} // verus!
