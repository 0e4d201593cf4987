use onnx_tensor::element_type::TensorElementDataType;
use onnx_tensor::type_mapping::{TensorDataToType, TypeToTensorElementDataType, Utf8Data};

fn all_kinds() -> Vec<TensorElementDataType> {
    vec![
        TensorElementDataType::Float,
        TensorElementDataType::Uint8,
        TensorElementDataType::Int8,
        TensorElementDataType::Uint16,
        TensorElementDataType::Int16,
        TensorElementDataType::Int32,
        TensorElementDataType::Int64,
        TensorElementDataType::String,
        TensorElementDataType::Double,
        TensorElementDataType::Uint32,
        TensorElementDataType::Uint64,
    ]
}

#[test]
fn native_round_trip_is_identity_for_every_kind() {
    for kind in all_kinds() {
        let code = kind.to_native();
        assert_eq!(TensorElementDataType::from_native(code), Some(kind));
    }
}

#[test]
fn native_codes_are_pairwise_distinct() {
    let kinds = all_kinds();
    for a in &kinds {
        for b in &kinds {
            if a != b {
                assert_ne!(a.to_native(), b.to_native());
            }
        }
    }
}

#[test]
fn native_codes_match_the_engine_enumeration() {
    assert_eq!(TensorElementDataType::Float.to_native(), 1);
    assert_eq!(TensorElementDataType::Uint8.to_native(), 2);
    assert_eq!(TensorElementDataType::Int8.to_native(), 3);
    assert_eq!(TensorElementDataType::Uint16.to_native(), 4);
    assert_eq!(TensorElementDataType::Int16.to_native(), 5);
    assert_eq!(TensorElementDataType::Int32.to_native(), 6);
    assert_eq!(TensorElementDataType::Int64.to_native(), 7);
    assert_eq!(TensorElementDataType::String.to_native(), 8);
    assert_eq!(TensorElementDataType::Double.to_native(), 11);
    assert_eq!(TensorElementDataType::Uint32.to_native(), 12);
    assert_eq!(TensorElementDataType::Uint64.to_native(), 13);
}

#[test]
fn unsupported_native_codes_are_rejected() {
    // undefined, boolean, half-precision, complex64, complex128, bfloat16
    for code in [0, 9, 10, 14, 15, 16, 17, 99, u32::MAX] {
        assert_eq!(TensorElementDataType::from_native(code), None);
    }
}

#[test]
fn discovering_a_supported_code_yields_its_kind() {
    match TensorElementDataType::try_from_native(8) {
        Ok(kind) => assert_eq!(kind, TensorElementDataType::String),
        Err(_) => panic!("code 8 is the supported string kind"),
    }
    match TensorElementDataType::try_from_native(6) {
        Ok(kind) => assert_eq!(kind, TensorElementDataType::Int32),
        Err(_) => panic!("code 6 is the supported 32-bit int kind"),
    }
}

#[test]
fn discovering_an_unsupported_code_is_an_error_carrying_it() {
    // 9 is the engine's boolean kind, deliberately unsupported.
    match TensorElementDataType::try_from_native(9) {
        Err(onnx_tensor::error::OrtError::UnsupportedElementDataType(code)) => {
            assert_eq!(code, 9)
        }
        _ => panic!("expected an unsupported-kind error"),
    }
}

#[test]
fn numeric_types_map_to_their_kinds() {
    assert_eq!(
        <u8 as TypeToTensorElementDataType>::tensor_element_data_type(),
        TensorElementDataType::Uint8
    );
    assert_eq!(
        <i8 as TypeToTensorElementDataType>::tensor_element_data_type(),
        TensorElementDataType::Int8
    );
    assert_eq!(
        <u16 as TypeToTensorElementDataType>::tensor_element_data_type(),
        TensorElementDataType::Uint16
    );
    assert_eq!(
        <i16 as TypeToTensorElementDataType>::tensor_element_data_type(),
        TensorElementDataType::Int16
    );
    assert_eq!(
        <i32 as TypeToTensorElementDataType>::tensor_element_data_type(),
        TensorElementDataType::Int32
    );
    assert_eq!(
        <i64 as TypeToTensorElementDataType>::tensor_element_data_type(),
        TensorElementDataType::Int64
    );
    assert_eq!(
        <u32 as TypeToTensorElementDataType>::tensor_element_data_type(),
        TensorElementDataType::Uint32
    );
    assert_eq!(
        <u64 as TypeToTensorElementDataType>::tensor_element_data_type(),
        TensorElementDataType::Uint64
    );
}

#[test]
fn extraction_types_map_to_their_kinds() {
    assert_eq!(
        <u8 as TensorDataToType>::tensor_element_data_type(),
        TensorElementDataType::Uint8
    );
    assert_eq!(
        <i64 as TensorDataToType>::tensor_element_data_type(),
        TensorElementDataType::Int64
    );
    assert_eq!(
        <String as TensorDataToType>::tensor_element_data_type(),
        TensorElementDataType::String
    );
}

#[test]
fn numeric_types_are_never_textual() {
    assert!(7u8.try_utf8_bytes().is_none());
    assert!((-7i8).try_utf8_bytes().is_none());
    assert!(7u16.try_utf8_bytes().is_none());
    assert!((-7i16).try_utf8_bytes().is_none());
    assert!(7i32.try_utf8_bytes().is_none());
    assert!(7i64.try_utf8_bytes().is_none());
    assert!(7u32.try_utf8_bytes().is_none());
    assert!(7u64.try_utf8_bytes().is_none());
}

#[test]
fn string_types_map_to_string_kind_and_expose_their_bytes() {
    let owned = String::from("hello");
    let borrowed = "world";

    assert_eq!(
        <String as TypeToTensorElementDataType>::tensor_element_data_type(),
        TensorElementDataType::String
    );
    assert_eq!(
        <&str as TypeToTensorElementDataType>::tensor_element_data_type(),
        TensorElementDataType::String
    );

    assert_eq!(owned.utf8_bytes(), b"hello");
    assert_eq!(borrowed.utf8_bytes(), b"world");
    assert_eq!(owned.try_utf8_bytes(), Some(&b"hello"[..]));
    assert_eq!(borrowed.try_utf8_bytes(), Some(&b"world"[..]));
}

#[test]
fn multibyte_text_exposes_utf8_encoding() {
    let accented = String::from("caf\u{e9}");
    assert_eq!(accented.utf8_bytes(), &[0x63, 0x61, 0x66, 0xc3, 0xa9]);
}
