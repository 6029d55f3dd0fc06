use ort::edge_info::{Dim, Dtype, TensorInfo, ValueInfo};
use ort::error::Error;
use ort::protos::{
    Dimension, DimensionValue, StringStringEntryProto, TypeProto, TypeProtoTensor, TypeProtoValue,
};
use ort::tensor::ExternalData;
use ort::utils::{if_not_empty, parse_usize, shape_to_dimensions, shape_to_tensor_shape_proto};

fn entry(key: &str, value: &str) -> StringStringEntryProto {
    StringStringEntryProto { key: key.to_string(), value: value.to_string() }
}

#[test]
fn shapes_become_numeric_dimensions() {
    let dims = shape_to_dimensions(&[2, 3]);
    assert_eq!(
        dims,
        vec![
            Dimension { value: Some(DimensionValue::DimValue(2)) },
            Dimension { value: Some(DimensionValue::DimValue(3)) },
        ]
    );
    let proto = shape_to_tensor_shape_proto(&[4]);
    assert_eq!(proto.dim, vec![Dimension { value: Some(DimensionValue::DimValue(4)) }]);
    assert_eq!(shape_to_tensor_shape_proto(&[]).dim, Vec::new());
}

#[test]
fn empty_strings_mean_absent_fields() {
    assert_eq!(if_not_empty(String::new()), None);
    assert_eq!(if_not_empty("x".to_string()), Some("x".to_string()));
}

#[test]
fn serialized_dtype_codes_round_trip() {
    let kinds = [
        Dtype::U8,
        Dtype::U16,
        Dtype::U32,
        Dtype::U64,
        Dtype::I8,
        Dtype::I16,
        Dtype::I32,
        Dtype::I64,
        Dtype::F32,
        Dtype::F64,
        Dtype::String,
        Dtype::Bool,
    ];
    for kind in kinds {
        assert_eq!(Dtype::try_from(kind.data_type_code()).unwrap(), kind);
    }
    for code in [0, 10, 14, -3] {
        assert!(matches!(Dtype::try_from(code).unwrap_err(), Error::Validation(_)));
    }
}

#[test]
fn dimensions_round_trip_through_the_serialized_form() {
    let dims = [
        Dim::Unknown,
        Dim::Fixed(5),
        Dim::Dynamic("N".to_string()),
    ];
    for dim in dims {
        let proto = dim.clone().into_proto();
        assert_eq!(Dim::try_from(proto).unwrap(), dim);
    }
    assert_eq!(
        Dim::try_from(Dimension { value: None }).unwrap(),
        Dim::Unknown
    );
}

#[test]
fn tensor_descriptions_round_trip() {
    let info = TensorInfo {
        shape: vec![Dim::Unknown, Dim::Dynamic("N".to_string()), Dim::Fixed(42)],
        dtype: Dtype::U8,
    };
    let proto = info.clone().into_proto_value();
    let TypeProtoValue::TensorType(t) = proto else {
        panic!("expected a tensor type");
    };
    assert_eq!(t.elem_type, 2);
    assert_eq!(TensorInfo::try_from(t).unwrap(), info);
}

#[test]
fn tensor_description_requires_a_shape() {
    let t = TypeProtoTensor { elem_type: 2, shape: None };
    assert!(matches!(TensorInfo::try_from(t).unwrap_err(), Error::Validation(_)));
}

#[test]
fn value_descriptions_round_trip() {
    let info = ValueInfo::Tensor(TensorInfo {
        shape: vec![Dim::Fixed(2)],
        dtype: Dtype::F32,
    });
    let proto = info.clone().value_info_proto("foo".to_string());
    assert_eq!(proto.name, "foo");
    assert_eq!(proto.doc_string, "");
    assert_eq!(ValueInfo::try_from(proto).unwrap(), info);
}

#[test]
fn value_descriptions_reject_other_container_kinds() {
    let proto = ort::protos::ValueInfoProto {
        name: "foo".to_string(),
        type_: Some(TypeProto { value: Some(TypeProtoValue::Unsupported) }),
        doc_string: String::new(),
    };
    assert!(matches!(ValueInfo::try_from(proto).unwrap_err(), Error::Validation(_)));
    let empty = ort::protos::ValueInfoProto {
        name: "foo".to_string(),
        type_: None,
        doc_string: String::new(),
    };
    assert!(matches!(ValueInfo::try_from(empty).unwrap_err(), Error::Validation(_)));
}

#[test]
fn numerals_parse_exactly() {
    assert_eq!(parse_usize("0").unwrap(), 0);
    assert_eq!(parse_usize("4096").unwrap(), 4096);
    assert_eq!(parse_usize("+17").unwrap(), 17);
    for bad in ["", "+", "12a", "-3", " 1", "99999999999999999999999999"] {
        assert!(matches!(parse_usize(bad).unwrap_err(), Error::Validation(_)));
    }
}

#[test]
fn external_data_reads_its_entries() {
    let ed = ExternalData::try_from(vec![
        entry("location", "weights.bin"),
        entry("offset", "4096"),
        entry("length", "128"),
        entry("checksum", "abc"),
    ])
    .unwrap();
    assert_eq!(ed.location(), "weights.bin");
    assert_eq!(ed.offset(), Some(4096));
    assert_eq!(ed.length(), Some(128));
    assert_eq!(ed.checksum(), &Some(vec![b'a', b'b', b'c']));
}

#[test]
fn external_data_defaults_to_no_optional_fields() {
    let ed = ExternalData::try_from(vec![entry("location", "w.bin")]).unwrap();
    assert_eq!(ed.location(), "w.bin");
    assert_eq!(ed.offset(), None);
    assert_eq!(ed.length(), None);
    assert_eq!(ed.checksum(), &None);
}

#[test]
fn external_data_takes_the_last_entry_for_a_key() {
    let ed = ExternalData::try_from(vec![
        entry("location", "first.bin"),
        entry("offset", "1"),
        entry("location", "second.bin"),
        entry("offset", "2"),
    ])
    .unwrap();
    assert_eq!(ed.location(), "second.bin");
    assert_eq!(ed.offset(), Some(2));
}

#[test]
fn external_data_rejects_bad_entries() {
    // An unknown key.
    assert!(matches!(
        ExternalData::try_from(vec![entry("location", "w.bin"), entry("mode", "mmap")])
            .unwrap_err(),
        Error::Validation(_)
    ));
    // An unparseable offset.
    assert!(matches!(
        ExternalData::try_from(vec![entry("location", "w.bin"), entry("offset", "4k")])
            .unwrap_err(),
        Error::Validation(_)
    ));
    // No location.
    assert!(matches!(
        ExternalData::try_from(vec![entry("offset", "1")]).unwrap_err(),
        Error::Validation(_)
    ));
    // No entries at all.
    assert!(matches!(
        ExternalData::try_from(Vec::new()).unwrap_err(),
        Error::Validation(_)
    ));
}
