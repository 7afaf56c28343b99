use libva::text::decimal;
use libva::GenericValue;
use libva::GenericValueError;
use libva::UsageHint;
use libva::VAGenericValue;
use libva::bindings::VAGenericValuePayload;
use libva::constants::VA_SURFACE_ATTRIB_USAGE_HINT_DECODER;
use libva::constants::VA_SURFACE_ATTRIB_USAGE_HINT_ENCODER;
use libva::constants::VA_SURFACE_ATTRIB_USAGE_HINT_EXPORT;

fn raw(type_: u32) -> VAGenericValue {
    VAGenericValue { type_, value: VAGenericValuePayload { i: -7, f: 0x3fc0_0000, p: 0x1000, func: 0x2000 } }
}

#[test]
fn decimal_of_small_and_large_numbers() {
    assert_eq!(decimal(0), "0");
    assert_eq!(decimal(9), "9");
    assert_eq!(decimal(10), "10");
    assert_eq!(decimal(128), "128");
    assert_eq!(decimal(191), "191");
    assert_eq!(decimal(4_294_967_295), "4294967295");
    assert_eq!(decimal(usize::MAX), usize::MAX.to_string());
}

#[test]
fn generic_value_is_decoded_by_its_discriminant() {
    assert_eq!(GenericValue::try_from(raw(1)), Ok(GenericValue::Integer(-7)));
    assert_eq!(GenericValue::try_from(raw(2)), Ok(GenericValue::Float(0x3fc0_0000)));
    assert_eq!(GenericValue::try_from(raw(3)), Ok(GenericValue::Pointer(0x1000)));
    assert_eq!(GenericValue::try_from(raw(4)), Ok(GenericValue::Func(0x2000)));
}

#[test]
fn generic_value_float_keeps_the_bit_pattern() {
    let value = VAGenericValue::from_f32_bits(1.5f32.to_bits());
    match GenericValue::try_from(value) {
        Ok(GenericValue::Float(bits)) => assert_eq!(f32::from_bits(bits), 1.5f32),
        other => panic!("unexpected {:?}", other),
    }
}

#[test]
fn generic_value_with_unknown_discriminant_is_rejected() {
    assert_eq!(GenericValue::try_from(raw(0)), Err(GenericValueError::UnexpectedType(0)));
    assert_eq!(GenericValue::try_from(raw(5)), Err(GenericValueError::UnexpectedType(5)));
    assert_eq!(
        GenericValue::try_from(raw(u32::MAX)),
        Err(GenericValueError::UnexpectedType(u32::MAX))
    );
}

#[test]
fn generic_value_round_trips_through_its_builders() {
    assert_eq!(GenericValue::try_from(VAGenericValue::from_i32(i32::MIN)), Ok(GenericValue::Integer(i32::MIN)));
    assert_eq!(GenericValue::try_from(VAGenericValue::from_i32(42)), Ok(GenericValue::Integer(42)));
    assert_eq!(GenericValue::try_from(VAGenericValue::from_pointer(0xdead)), Ok(GenericValue::Pointer(0xdead)));
    let built = VAGenericValue::from_i32(42);
    assert_eq!(built.type_, 1);
    assert_eq!(built.value.i, 42);
    assert_eq!(built.value.p, 0);
}

#[test]
fn usage_hint_bits() {
    assert_eq!(UsageHint::decoder().bits(), VA_SURFACE_ATTRIB_USAGE_HINT_DECODER);
    assert_eq!(UsageHint::encoder().bits(), VA_SURFACE_ATTRIB_USAGE_HINT_ENCODER);
    assert_eq!(UsageHint::vpp_read().bits(), 0x4);
    assert_eq!(UsageHint::vpp_write().bits(), 0x8);
    assert_eq!(UsageHint::display().bits(), 0x10);
    assert_eq!(UsageHint::export().bits(), VA_SURFACE_ATTRIB_USAGE_HINT_EXPORT);
    assert_eq!(UsageHint::empty().bits(), 0);
    assert_eq!(UsageHint::all().bits(), 0x3f);
}

#[test]
fn usage_hint_from_bits_rejects_unknown_bits() {
    assert_eq!(UsageHint::from_bits(0x21).map(|h| h.bits()), Some(0x21));
    assert_eq!(UsageHint::from_bits(0).map(|h| h.bits()), Some(0));
    assert!(UsageHint::from_bits(0x40).is_none());
    assert!(UsageHint::from_bits(0x8000_0001).is_none());
    assert_eq!(UsageHint::from_bits_truncate(0xffff_ffff).bits(), 0x3f);
    assert_eq!(UsageHint::from_bits_truncate(0x41).bits(), 0x01);
}

#[test]
fn usage_hint_union_contains_both_operands() {
    let both = UsageHint::decoder().union(UsageHint::export());
    assert_eq!(both.bits(), 0x21);
    assert!(both.contains(UsageHint::decoder()));
    assert!(both.contains(UsageHint::export()));
    assert!(!both.contains(UsageHint::encoder()));
    assert!(!both.is_empty());
    assert!(UsageHint::empty().is_empty());
    assert!(UsageHint::all().contains(both));
}
