use ort::error::Error;
use ort::session::{find_output, CachedName, RunOutput, Session};
use ort::type_info::TensorDataType;
use ort::value::{element_count, string_tensor_payload, Data, StringContainer, Tensor, Value};
use ort::{ResourceKind, Wrapper};

fn value_handle(raw: usize) -> Wrapper {
    Wrapper::new(raw, ResourceKind::Value)
}

fn name(raw: usize, text: &str) -> CachedName {
    CachedName::new(
        Wrapper::new(raw, ResourceKind::AllocatedChars),
        text.to_string(),
    )
}

#[test]
fn element_count_multiplies_the_axes() {
    assert_eq!(element_count(&vec![]), Some(1));
    assert_eq!(element_count(&vec![2, 3, 4]), Some(24));
    assert_eq!(element_count(&vec![5, 0, 7]), Some(0));
    assert_eq!(element_count(&vec![usize::MAX, 2]), None);
}

#[test]
fn value_decoding_picks_the_variant_for_the_code() {
    let cases: [(u32, TensorDataType); 12] = [
        (1, TensorDataType::F32),
        (2, TensorDataType::U8),
        (3, TensorDataType::I8),
        (4, TensorDataType::U16),
        (5, TensorDataType::I16),
        (6, TensorDataType::I32),
        (7, TensorDataType::I64),
        (8, TensorDataType::String),
        (9, TensorDataType::Bool),
        (11, TensorDataType::F64),
        (12, TensorDataType::U32),
        (13, TensorDataType::U64),
    ];
    for (code, kind) in cases {
        let value = value_handle(0x60).into_value(1, code, vec![2, 3]).unwrap();
        let Value::Tensor(tensor) = value;
        assert_eq!(tensor.dtype(), kind);
        assert_eq!(tensor.data().shape(), &vec![2, 3]);
        assert_eq!(tensor.data().value().raw(), 0x60);
    }
}

#[test]
fn value_decoding_rejects_unknown_codes_without_losing_the_handle() {
    let (handle, err) = value_handle(0x60).into_value(1, 17, vec![2]).unwrap_err();
    assert_eq!(err, Error::UnsupportedDType(17));
    assert_eq!(handle.raw(), 0x60);

    let (handle, err) = value_handle(0x61).into_value(3, 1, vec![2]).unwrap_err();
    assert_eq!(err, Error::UnsupportedContainerKind(3));
    assert_eq!(handle.raw(), 0x61);
}

#[test]
fn string_payload_is_null_terminated() {
    let data = vec!["ab".to_string(), String::new(), "c".to_string()];
    let payload = string_tensor_payload(&data).unwrap();
    assert_eq!(
        payload,
        vec![vec![b'a', b'b', 0], vec![0], vec![b'c', 0]]
    );
}

#[test]
fn string_payload_rejects_interior_null_bytes() {
    let data = vec!["a\0b".to_string()];
    assert!(matches!(
        string_tensor_payload(&data).unwrap_err(),
        Error::Validation(_)
    ));
}

/// Builds the buffer and offset table the engine would report for these
/// strings: their bytes concatenated without terminators, one start offset
/// per element.
fn engine_storage(strings: &[&str]) -> (Vec<u8>, Vec<usize>) {
    let mut buffer = Vec::new();
    let mut offsets = Vec::new();
    for s in strings {
        offsets.push(buffer.len());
        buffer.extend_from_slice(s.as_bytes());
    }
    (buffer, offsets)
}

#[test]
fn string_round_trip_preserves_order_and_content() {
    let original = ["hello", "", "wörld", "!"];
    let (buffer, offsets) = engine_storage(&original);
    let container = StringContainer::new(buffer, offsets, vec![4]).unwrap();
    assert_eq!(container.shape(), &vec![4]);
    let decoded = container.array().unwrap();
    assert_eq!(decoded, original.map(|s| s.to_string()).to_vec());
}

/// The full write/read trip through the two public halves: the payload is
/// what the engine is handed, the stored buffer is the payload without its
/// terminators, and decoding that buffer returns the originals.
#[test]
fn written_payload_round_trips() {
    let original = vec!["hello".to_string(), String::new(), "wörld".to_string()];
    let payload = string_tensor_payload(&original).unwrap();
    let mut buffer = Vec::new();
    let mut offsets = Vec::new();
    for part in &payload {
        offsets.push(buffer.len());
        buffer.extend_from_slice(&part[..part.len() - 1]);
    }
    let container = StringContainer::new(buffer, offsets, vec![3]).unwrap();
    assert_eq!(container.array().unwrap(), original);
}

#[test]
fn str_container_keeps_the_tensor_shape() {
    let data = Data::new(value_handle(0x70), vec![2, 2]);
    let (buffer, offsets) = engine_storage(&["a", "b", "c", "d"]);
    let container = data.str_container(buffer, offsets).unwrap();
    assert_eq!(container.shape(), &vec![2, 2]);
    assert_eq!(
        container.array().unwrap(),
        vec!["a".to_string(), "b".to_string(), "c".to_string(), "d".to_string()]
    );
}

#[test]
fn string_container_validates_the_offsets() {
    // One offset per element is required.
    assert!(matches!(
        StringContainer::new(vec![1, 2], vec![0], vec![2]).unwrap_err(),
        Error::Validation(_)
    ));
    // Offsets must not run past the buffer.
    assert!(matches!(
        StringContainer::new(vec![1, 2], vec![0, 9], vec![2]).unwrap_err(),
        Error::Validation(_)
    ));
    // Offsets must not decrease.
    assert!(matches!(
        StringContainer::new(vec![1, 2], vec![2, 1], vec![2]).unwrap_err(),
        Error::Validation(_)
    ));
}

#[test]
fn string_container_rejects_bytes_that_are_not_utf8() {
    let container = StringContainer::new(vec![0xff, 0xfe], vec![0, 1], vec![2]).unwrap();
    assert!(matches!(container.array().unwrap_err(), Error::Validation(_)));
}

fn session_ab() -> Session {
    Session::new(
        Wrapper::new(0x10, ResourceKind::Env),
        Wrapper::new(0x20, ResourceKind::Session),
        0x30,
        vec![name(0x41, "a")],
        vec![name(0x51, "b")],
    )
}

/// The marshaling of a one-node graph mapping input "a" (shape `[2]`, 32-bit
/// float) to output "b": the plan orders the caller's values by the cached
/// input names, and the decoded outputs carry exactly the requested names.
/// The arithmetic between the two halves is the engine's.
#[test]
fn run_marshals_names_in_both_directions() {
    let session = session_ab();
    let input = value_handle(0x60).into_value(1, 1, vec![2]).unwrap();
    let inputs = vec![("a".to_string(), input)];

    let plan = session.run_plan(&inputs).unwrap();
    assert_eq!(plan, vec![0x60]);

    let outs = vec![RunOutput {
        value: value_handle(0x61),
        onnx_type: 1,
        dtype_code: 1,
        shape: vec![2],
    }];
    let outputs = session.accept_run_outputs(outs).unwrap();
    assert_eq!(outputs.len(), 1);
    assert_eq!(outputs[0].0, "b");
    let Value::Tensor(tensor) = &outputs[0].1;
    assert_eq!(tensor.dtype(), TensorDataType::F32);
    assert_eq!(tensor.data().shape(), &vec![2]);
    assert_eq!(tensor.data().value().raw(), 0x61);

    let found = find_output(&outputs, &"b".to_string()).unwrap();
    let Value::Tensor(tensor) = found;
    assert_eq!(tensor.dtype(), TensorDataType::F32);
    assert_eq!(
        find_output(&outputs, &"missing".to_string()).unwrap_err(),
        Error::MissingOutput("missing".to_string())
    );
    session.close();
}

#[test]
fn run_plan_fails_on_a_missing_input() {
    let session = session_ab();
    let other = value_handle(0x62).into_value(1, 1, vec![2]).unwrap();
    let inputs = vec![("x".to_string(), other)];
    assert_eq!(
        session.run_plan(&inputs).unwrap_err(),
        Error::MissingInput("a".to_string())
    );
    session.close();
}

#[test]
fn run_plan_takes_the_first_pair_for_a_name() {
    let session = session_ab();
    let first = value_handle(0x63).into_value(1, 1, vec![2]).unwrap();
    let second = value_handle(0x64).into_value(1, 1, vec![2]).unwrap();
    let inputs = vec![("a".to_string(), first), ("a".to_string(), second)];
    assert_eq!(session.run_plan(&inputs).unwrap(), vec![0x63]);
    session.close();
}

#[test]
fn bad_outputs_are_handed_back_for_release() {
    let session = session_ab();
    let outs = vec![RunOutput {
        value: value_handle(0x61),
        onnx_type: 1,
        dtype_code: 16,
        shape: vec![2],
    }];
    let (back, err) = session.accept_run_outputs(outs).unwrap_err();
    assert_eq!(err, Error::UnsupportedDType(16));
    assert_eq!(back.len(), 1);
    assert_eq!(back[0].value.raw(), 0x61);

    let (back, err) = session.accept_run_outputs(Vec::new()).unwrap_err();
    assert!(matches!(err, Error::Validation(_)));
    assert!(back.is_empty());
    session.close();
}
