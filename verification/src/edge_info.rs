//! The typed description of a graph edge in the serialized format: element
//! kind, shape, and the conversions to and from the serialized messages.

use vstd::prelude::*;

use crate::error::Error;
use crate::protos::{
    Dimension, DimensionValue, TensorShapeProto, TypeProto, TypeProtoTensor, TypeProtoValue,
    ValueInfoProto,
};

verus! {

/// What a graph edge carries: a tensor, or a sequence of tensors.  Sequence
/// edges are described but not otherwise supported.
#[derive(Debug, Clone, PartialEq, Eq)]
pub enum ValueInfo {
    Tensor(TensorInfo),
    Sequence(TensorInfo),
}

/// Element kind and shape of one serialized tensor description.
#[derive(Debug, Clone, PartialEq, Eq)]
pub struct TensorInfo {
    pub shape: Vec<Dim>,
    pub dtype: Dtype,
}

/// One axis of a serialized shape.
#[derive(Debug, Clone, PartialEq, Eq)]
pub enum Dim {
    Unknown,
    Dynamic(String),
    Fixed(usize),
}

/// The element kinds the serialized format's tensors can hold here.
#[derive(Debug, Clone, Copy, PartialEq, Eq, Structural)]
pub enum Dtype {
    U8,
    U16,
    U32,
    U64,
    I8,
    I16,
    I32,
    I64,
    F32,
    F64,
    String,
    Bool,
}

/// The serialized format's numeric code for an element kind.
pub open spec fn spec_data_type_code(d: Dtype) -> i32 {
    match d {
        Dtype::F32 => 1,
        Dtype::U8 => 2,
        Dtype::I8 => 3,
        Dtype::U16 => 4,
        Dtype::I16 => 5,
        Dtype::I32 => 6,
        Dtype::I64 => 7,
        Dtype::String => 8,
        Dtype::Bool => 9,
        Dtype::F64 => 11,
        Dtype::U32 => 12,
        Dtype::U64 => 13,
    }
}

/// The element kind a serialized code denotes, if it is one this layer
/// supports.  Code 10 (a 16-bit floating kind) and everything outside the
/// table are unsupported.
pub open spec fn spec_dtype_of_data_type(code: i32) -> Option<Dtype> {
    if code == 1 {
        Some(Dtype::F32)
    } else if code == 2 {
        Some(Dtype::U8)
    } else if code == 3 {
        Some(Dtype::I8)
    } else if code == 4 {
        Some(Dtype::U16)
    } else if code == 5 {
        Some(Dtype::I16)
    } else if code == 6 {
        Some(Dtype::I32)
    } else if code == 7 {
        Some(Dtype::I64)
    } else if code == 8 {
        Some(Dtype::String)
    } else if code == 9 {
        Some(Dtype::Bool)
    } else if code == 11 {
        Some(Dtype::F64)
    } else if code == 12 {
        Some(Dtype::U32)
    } else if code == 13 {
        Some(Dtype::U64)
    } else {
        None
    }
}

/// The two directions of the serialized element-kind mapping invert each
/// other.
pub proof fn lemma_data_type_round_trip()
    ensures
        forall|d: Dtype| #[trigger] spec_dtype_of_data_type(spec_data_type_code(d)) == Some(d),
        forall|code: i32|
            #[trigger] spec_dtype_of_data_type(code) is Some ==> spec_data_type_code(
                spec_dtype_of_data_type(code).unwrap(),
            ) == code,
{
}

impl Dtype {
    /// Decodes a serialized element-kind code.
    pub fn try_from(value: i32) -> (r: Result<Self, Error>)
        ensures
            spec_dtype_of_data_type(value) is Some ==> r == Ok::<Self, Error>(
                spec_dtype_of_data_type(value).unwrap(),
            ),
            spec_dtype_of_data_type(value) is None ==> (r matches Err(e) && e matches
                Error::Validation(m) && m@ == "unsupported tensor data type"@),
    {
        match value {
            1 => Ok(Dtype::F32),
            2 => Ok(Dtype::U8),
            3 => Ok(Dtype::I8),
            4 => Ok(Dtype::U16),
            5 => Ok(Dtype::I16),
            6 => Ok(Dtype::I32),
            7 => Ok(Dtype::I64),
            8 => Ok(Dtype::String),
            9 => Ok(Dtype::Bool),
            11 => Ok(Dtype::F64),
            12 => Ok(Dtype::U32),
            13 => Ok(Dtype::U64),
            _ => Err(Error::new_validation("unsupported tensor data type".to_owned())),
        }
    }

    /// The serialized code for this element kind.
    pub fn data_type_code(&self) -> (r: i32)
        ensures
            r == spec_data_type_code(*self),
    {
        match self {
            Dtype::F32 => 1,
            Dtype::U8 => 2,
            Dtype::I8 => 3,
            Dtype::U16 => 4,
            Dtype::I16 => 5,
            Dtype::I32 => 6,
            Dtype::I64 => 7,
            Dtype::String => 8,
            Dtype::Bool => 9,
            Dtype::F64 => 11,
            Dtype::U32 => 12,
            Dtype::U64 => 13,
        }
    }
}

/// The axis a serialized dimension denotes: a numeric extent is fixed, a
/// parameter name is dynamic, an absent value is unknown.
pub open spec fn spec_dim_of_dimension(proto: Dimension) -> Dim {
    match proto.value {
        None => Dim::Unknown,
        Some(DimensionValue::DimValue(v)) => Dim::Fixed(v as usize),
        Some(DimensionValue::DimParam(s)) => Dim::Dynamic(s),
    }
}

/// The serialized form of an axis.
pub open spec fn spec_dimension_of_dim(dim: Dim) -> Dimension {
    Dimension {
        value: match dim {
            Dim::Unknown => None,
            Dim::Fixed(v) => Some(DimensionValue::DimValue(v as i64)),
            Dim::Dynamic(s) => Some(DimensionValue::DimParam(s)),
        },
    }
}

impl Dim {
    /// Decodes a serialized dimension.  Every dimension decodes; the
    /// `Result` mirrors the fallible conversions around it.
    pub fn try_from(proto: Dimension) -> (r: Result<Self, Error>)
        ensures
            r == Ok::<Self, Error>(spec_dim_of_dimension(proto)),
    {
        Ok(
            match proto.value {
                None => Dim::Unknown,
                Some(DimensionValue::DimValue(v)) => Dim::Fixed(v as usize),
                Some(DimensionValue::DimParam(s)) => Dim::Dynamic(s),
            },
        )
    }

    /// Encodes this axis as a serialized dimension.
    pub fn into_proto(self) -> (r: Dimension)
        ensures
            r == spec_dimension_of_dim(self),
    {
        Dimension {
            value: match self {
                Dim::Unknown => None,
                Dim::Fixed(v) => Some(DimensionValue::DimValue(v as i64)),
                Dim::Dynamic(s) => Some(DimensionValue::DimParam(s)),
            },
        }
    }
}

impl TensorInfo {
    /// Decodes a serialized tensor type: its shape must be present and its
    /// element kind supported.
    pub fn try_from(proto: TypeProtoTensor) -> (r: Result<Self, Error>)
        ensures
            r is Ok <==> (proto.shape is Some && spec_dtype_of_data_type(proto.elem_type) is Some),
            r matches Ok(info) ==> ({
                &&& info.dtype == spec_dtype_of_data_type(proto.elem_type).unwrap()
                &&& info.shape@.len() == proto.shape.unwrap().dim@.len()
                &&& forall|i: int|
                    0 <= i < info.shape@.len() ==> #[trigger] info.shape@[i]
                        == spec_dim_of_dimension(proto.shape.unwrap().dim@[i])
            }),
            r matches Err(e) ==> e is Validation,
    {
        let TypeProtoTensor { elem_type, shape } = proto;
        let shape_proto = match shape {
            Some(sp) => sp,
            None => {
                return Err(Error::new_validation("incomplete dimension data".to_owned()));
            },
        };
        let dtype = match Dtype::try_from(elem_type) {
            Ok(d) => d,
            Err(e) => {
                return Err(e);
            },
        };
        let ghost dims_orig = shape_proto.dim@;
        let mut dims = shape_proto.dim;
        let mut shape: Vec<Dim> = Vec::new();
        while dims.len() > 0
            invariant
                shape@.len() + dims@.len() == dims_orig.len(),
                dims@ == dims_orig.skip(shape@.len() as int),
                forall|i: int|
                    0 <= i < shape@.len() ==> #[trigger] shape@[i] == spec_dim_of_dimension(
                        dims_orig[i],
                    ),
            decreases dims@.len(),
        {
            let ghost k = shape@.len() as int;
            proof {
                assert(dims@[0] == dims_orig[k]);
                assert(dims_orig.skip(k).remove(0) =~= dims_orig.skip(k + 1));
            }
            let d = dims.remove(0);
            match Dim::try_from(d) {
                Ok(dim) => {
                    shape.push(dim);
                },
                Err(_) => {
                    return vstd::pervasive::unreached();
                },
            }
        }
        Ok(TensorInfo { shape, dtype })
    }

    /// Encodes this tensor type as a serialized type value.
    pub fn into_proto_value(self) -> (r: TypeProtoValue)
        ensures
            ({
                &&& r matches TypeProtoValue::TensorType(t)
                &&& t.elem_type == spec_data_type_code(self.dtype)
                &&& t.shape matches Some(sp)
                &&& sp.dim@.len() == self.shape@.len()
                &&& forall|i: int|
                    0 <= i < self.shape@.len() ==> #[trigger] sp.dim@[i] == spec_dimension_of_dim(
                        self.shape@[i],
                    )
            }),
    {
        let TensorInfo { shape, dtype } = self;
        let elem_type = dtype.data_type_code();
        let ghost shape_orig = shape@;
        let mut shape = shape;
        let mut dim: Vec<Dimension> = Vec::new();
        while shape.len() > 0
            invariant
                dim@.len() + shape@.len() == shape_orig.len(),
                shape@ == shape_orig.skip(dim@.len() as int),
                forall|i: int|
                    0 <= i < dim@.len() ==> #[trigger] dim@[i] == spec_dimension_of_dim(
                        shape_orig[i],
                    ),
            decreases shape@.len(),
        {
            let ghost k = dim@.len() as int;
            proof {
                assert(shape@[0] == shape_orig[k]);
                assert(shape_orig.skip(k).remove(0) =~= shape_orig.skip(k + 1));
            }
            let d = shape.remove(0);
            dim.push(d.into_proto());
        }
        TypeProtoValue::TensorType(
            TypeProtoTensor { elem_type, shape: Some(TensorShapeProto { dim }) },
        )
    }
}

impl ValueInfo {
    /// Decodes a serialized named-value description.  Only tensor
    /// descriptions are supported; an absent or unsupported type is a
    /// validation failure.
    pub fn try_from(proto: ValueInfoProto) -> (r: Result<Self, Error>)
        ensures
            r is Ok <==> (proto.type_ matches Some(tp) && tp.value matches Some(
                TypeProtoValue::TensorType(t),
            ) && t.shape is Some && spec_dtype_of_data_type(t.elem_type) is Some),
            r matches Ok(v) ==> (v matches ValueInfo::Tensor(info) && proto.type_ matches Some(tp)
                && tp.value matches Some(TypeProtoValue::TensorType(t)) && {
                &&& info.dtype == spec_dtype_of_data_type(t.elem_type).unwrap()
                &&& info.shape@.len() == t.shape.unwrap().dim@.len()
                &&& forall|i: int|
                    0 <= i < info.shape@.len() ==> #[trigger] info.shape@[i]
                        == spec_dim_of_dimension(t.shape.unwrap().dim@[i])
            }),
            r matches Err(e) ==> e is Validation,
    {
        let ValueInfoProto { name: _, type_, doc_string: _ } = proto;
        match type_ {
            Some(TypeProto { value: Some(TypeProtoValue::TensorType(t)) }) => {
                match TensorInfo::try_from(t) {
                    Ok(info) => Ok(ValueInfo::Tensor(info)),
                    Err(e) => Err(e),
                }
            },
            Some(TypeProto { value: Some(TypeProtoValue::Unsupported) }) => {
                Err(Error::new_validation("only tensor values are supported".to_owned()))
            },
            _ => Err(Error::new_validation("incomplete type description".to_owned())),
        }
    }

    /// Encodes this description as a serialized named-value message.  Only
    /// tensor descriptions can be written.
    pub fn value_info_proto(self, name: String) -> (r: ValueInfoProto)
        requires
            self is Tensor,
        ensures
            r.name == name,
            r.doc_string@.len() == 0,
            ({
                &&& r.type_ matches Some(tp)
                &&& tp.value matches Some(TypeProtoValue::TensorType(t))
                &&& self matches ValueInfo::Tensor(info)
                &&& t.elem_type == spec_data_type_code(info.dtype)
                &&& t.shape matches Some(sp)
                &&& sp.dim@.len() == info.shape@.len()
                &&& forall|i: int|
                    0 <= i < info.shape@.len() ==> #[trigger] sp.dim@[i] == spec_dimension_of_dim(
                        info.shape@[i],
                    )
            }),
    {
        let info = match self {
            ValueInfo::Tensor(info) => info,
            ValueInfo::Sequence(_) => vstd::pervasive::unreached(),
        };
        ValueInfoProto {
            name,
            type_: Some(TypeProto { value: Some(info.into_proto_value()) }),
            doc_string: String::new(),
        }
    }
}

} // verus!
