use erissery_core::error::Error;
use erissery_core::ggml::GGMLType;
use erissery_core::DType;

#[test]
fn dtype_names_round_trip() {
    for name in ["F32", "F16", "BF16", "I32", "I64", "U8"] {
        assert_eq!(DType::from_name(name).name(), name);
    }
    assert_eq!(DType::from_name("F16"), DType::F16);
    assert_eq!(DType::from_name("F8_E4M3"), DType::Other("F8_E4M3".to_string()));
    for d in [DType::F32, DType::BF16, DType::I64, DType::Other("U16".to_string())] {
        assert_eq!(DType::from_name(&d.name()), d);
    }
    assert_eq!(DType::from_name(&DType::Other("I32".to_string()).name()), DType::I32);
}

#[test]
fn only_bf16_needs_conversion() {
    assert!(DType::BF16.needs_conversion());
    assert!(!DType::F16.needs_conversion());
    assert!(!DType::F32.needs_conversion());
}

#[test]
fn ggml_types_have_their_numbers_and_names() {
    assert_eq!(GGMLType::F32.type_id(), 0);
    assert_eq!(GGMLType::Q8_0.type_id(), 8);
    assert_eq!(GGMLType::Q4K.type_id(), 12);
    assert_eq!(GGMLType::I32.type_id(), 26);
    assert_eq!(GGMLType::I64.type_id(), 27);
    assert_eq!(GGMLType::Q4K.name(), "Q4_K");
    assert_eq!(GGMLType::Q8_0.name(), "Q8_0");
}

#[test]
fn ggml_type_from_dtype() {
    assert_eq!(GGMLType::try_from_dtype(DType::I64).unwrap(), GGMLType::I64);
    assert_eq!(GGMLType::try_from_dtype(DType::F32).unwrap(), GGMLType::F32);
    assert!(matches!(
        GGMLType::try_from_dtype(DType::BF16),
        Err(Error::UnsupportedDtype(DType::BF16))
    ));
}
