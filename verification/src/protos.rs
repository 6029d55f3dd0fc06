//! Plain models of the serialized graph format's messages.
//!
//! The byte-level codec for the graph serialization format is an external
//! collaborator of this layer; these records model only the messages whose
//! content the layer itself reads or builds: a shape dimension, a shape, a
//! tensor type, a named value description, and a string-to-string entry.

use vstd::prelude::*;

verus! {

/// The value carried by one shape dimension: a numeric extent or a symbolic
/// parameter name.
#[derive(Debug, Clone, PartialEq, Eq)]
pub enum DimensionValue {
    DimValue(i64),
    DimParam(String),
}

/// One dimension of a serialized tensor shape; an absent value leaves the
/// dimension unknown.
#[derive(Debug, Clone, PartialEq, Eq)]
pub struct Dimension {
    pub value: Option<DimensionValue>,
}

/// A serialized tensor shape.
#[derive(Debug, Clone, PartialEq, Eq)]
pub struct TensorShapeProto {
    pub dim: Vec<Dimension>,
}

/// A serialized tensor type: its element type code and its shape.
#[derive(Debug, Clone, PartialEq, Eq)]
pub struct TypeProtoTensor {
    pub elem_type: i32,
    pub shape: Option<TensorShapeProto>,
}

/// The container kinds a serialized type can describe.  Only the tensor
/// kind carries data this layer reads; the others (sequences, maps,
/// optionals and the like) are rejected wherever they appear.
#[derive(Debug, Clone, PartialEq, Eq)]
pub enum TypeProtoValue {
    TensorType(TypeProtoTensor),
    Unsupported,
}

/// A serialized type.
#[derive(Debug, Clone, PartialEq, Eq)]
pub struct TypeProto {
    pub value: Option<TypeProtoValue>,
}

/// A serialized named value description.
#[derive(Debug, Clone, PartialEq, Eq)]
pub struct ValueInfoProto {
    pub name: String,
    pub type_: Option<TypeProto>,
    pub doc_string: String,
}

/// One key/value entry of a serialized string-to-string map.
#[derive(Debug, Clone, PartialEq, Eq)]
pub struct StringStringEntryProto {
    pub key: String,
    pub value: String,
}

} // verus!
