use ort::error::Error;
use ort::session::{CachedName, Session};
use ort::type_info::{
    decode_dim, Dim, RawTypeInfo, TensorDataType, TensorInfo, TypeInfo, ONNX_TYPE_TENSOR,
};
use ort::{ResourceKind, Wrapper};

#[test]
fn dtype_codes_round_trip() {
    let kinds = [
        TensorDataType::U8,
        TensorDataType::U16,
        TensorDataType::U32,
        TensorDataType::U64,
        TensorDataType::I8,
        TensorDataType::I16,
        TensorDataType::I32,
        TensorDataType::I64,
        TensorDataType::F32,
        TensorDataType::F64,
        TensorDataType::Bool,
        TensorDataType::String,
    ];
    for kind in kinds {
        let code = kind.onnx_code();
        assert_eq!(
            TensorDataType::from_onnx_tensor_element_data_type(code).unwrap(),
            kind
        );
    }
}

#[test]
fn dtype_code_table_is_fixed() {
    assert_eq!(TensorDataType::F32.onnx_code(), 1);
    assert_eq!(TensorDataType::U8.onnx_code(), 2);
    assert_eq!(TensorDataType::I8.onnx_code(), 3);
    assert_eq!(TensorDataType::U16.onnx_code(), 4);
    assert_eq!(TensorDataType::I16.onnx_code(), 5);
    assert_eq!(TensorDataType::I32.onnx_code(), 6);
    assert_eq!(TensorDataType::I64.onnx_code(), 7);
    assert_eq!(TensorDataType::String.onnx_code(), 8);
    assert_eq!(TensorDataType::Bool.onnx_code(), 9);
    assert_eq!(TensorDataType::F64.onnx_code(), 11);
    assert_eq!(TensorDataType::U32.onnx_code(), 12);
    assert_eq!(TensorDataType::U64.onnx_code(), 13);
}

#[test]
fn unknown_dtype_codes_are_rejected() {
    for code in [0u32, 10, 14, 15, 16, 999] {
        assert_eq!(
            TensorDataType::from_onnx_tensor_element_data_type(code).unwrap_err(),
            Error::UnsupportedDType(code)
        );
    }
}

#[test]
fn dimension_decode_rule() {
    // An unresolved length with no symbolic name is unknown.
    assert_eq!(decode_dim(-1, &String::new()), Dim::Unknown);
    // An unresolved length with a symbolic name is dynamic under that name.
    assert_eq!(decode_dim(-1, &"N".to_string()), Dim::Dynamic("N".to_string()));
    // A positive length is fixed, whatever the symbolic name says.
    assert_eq!(decode_dim(3, &String::new()), Dim::Fixed(3));
    assert_eq!(decode_dim(3, &"N".to_string()), Dim::Fixed(3));
    // Zero is not a valid positive size, so the symbolic name decides.
    assert_eq!(decode_dim(0, &"batch".to_string()), Dim::Dynamic("batch".to_string()));
    assert_eq!(decode_dim(0, &String::new()), Dim::Unknown);
}

fn raw_f32(fixed: Vec<i64>, symbolic: Vec<&str>) -> RawTypeInfo {
    RawTypeInfo {
        onnx_type: ONNX_TYPE_TENSOR,
        dtype_code: 1,
        fixed_dims: fixed,
        symbolic_dims: symbolic.into_iter().map(|s| s.to_string()).collect(),
    }
}

#[test]
fn type_info_decodes_shapes_in_lock_step() {
    let raw = raw_f32(vec![-1, 2, -1], vec!["", "", "N"]);
    let info = TypeInfo::new(&raw).unwrap();
    assert_eq!(
        info,
        TypeInfo::Tensor(TensorInfo {
            dtype: TensorDataType::F32,
            shape: vec![Dim::Unknown, Dim::Fixed(2), Dim::Dynamic("N".to_string())],
        })
    );
}

#[test]
fn type_info_rejects_other_container_kinds() {
    let mut raw = raw_f32(vec![2], vec![""]);
    raw.onnx_type = 2;
    assert_eq!(TypeInfo::new(&raw).unwrap_err(), Error::UnsupportedContainerKind(2));
}

#[test]
fn type_info_rejects_unknown_element_kinds() {
    let mut raw = raw_f32(vec![2], vec![""]);
    raw.dtype_code = 10;
    assert_eq!(TypeInfo::new(&raw).unwrap_err(), Error::UnsupportedDType(10));
}

/// An identity graph declaring input "a" with shape `[Unknown, Fixed(2),
/// Dynamic("N")]` reports exactly that dimension sequence and a 32-bit
/// floating element kind.
#[test]
fn unknown_fixed_dynamic_shapes() {
    let session = Session::new(
        Wrapper::new(0x10, ResourceKind::Env),
        Wrapper::new(0x20, ResourceKind::Session),
        0x30,
        vec![CachedName::new(
            Wrapper::new(0x41, ResourceKind::AllocatedChars),
            "a".to_string(),
        )],
        vec![CachedName::new(
            Wrapper::new(0x51, ResourceKind::AllocatedChars),
            "b".to_string(),
        )],
    );
    let raws = vec![raw_f32(vec![-1, 2, -1], vec!["", "", "N"])];

    let expectation = (
        "a".to_string(),
        TypeInfo::Tensor(TensorInfo {
            dtype: TensorDataType::F32,
            shape: vec![Dim::Unknown, Dim::Fixed(2), Dim::Dynamic("N".to_string())],
        }),
    );
    let candidate = session.get_input_infos(&raws).unwrap();

    assert_eq!(candidate.len(), 1);
    assert_eq!(candidate[0], expectation);
    session.close();
}

#[test]
fn info_decoding_requires_one_record_per_name() {
    let session = Session::new(
        Wrapper::new(0x10, ResourceKind::Env),
        Wrapper::new(0x20, ResourceKind::Session),
        0x30,
        vec![CachedName::new(
            Wrapper::new(0x41, ResourceKind::AllocatedChars),
            "a".to_string(),
        )],
        Vec::new(),
    );
    assert!(matches!(
        session.get_input_infos(&Vec::new()).unwrap_err(),
        Error::Validation(_)
    ));
    assert_eq!(session.get_output_infos(&Vec::new()).unwrap(), Vec::new());
    session.close();
}
