use hydrozoa::ty::{
    check_values, decode_values, encode_values, function_signature, native_type_of, read_slot,
    ret_slot_count, signature_char, tag_of, validate_ret, validate_types, write_slot, F32Bits,
    F64Bits, NativeType, ValueType, WasmArg, WasmType, WasmValue,
};

#[test]
fn test_validate_types_single() {
    assert!(validate_types(&vec![ValueType::F64], &vec![NativeType::F64]));
}

#[test]
fn test_validate_types_single_fail() {
    assert!(!validate_types(&vec![ValueType::F64], &vec![NativeType::F32]));
}

#[test]
fn test_validate_types_double() {
    assert!(validate_types(
        &vec![ValueType::F64, ValueType::I32],
        &vec![NativeType::F64, NativeType::U32],
    ));
}

#[test]
fn test_validate_types_double_fail() {
    assert!(!validate_types(
        &vec![ValueType::I64, ValueType::F32],
        &vec![NativeType::F32, NativeType::U64],
    ));
}

#[test]
fn test_validate_types_quintuple() {
    assert!(validate_types(
        &vec![
            ValueType::F64,
            ValueType::I32,
            ValueType::I32,
            ValueType::I64,
            ValueType::F32,
        ],
        &vec![
            NativeType::F64,
            NativeType::U32,
            NativeType::I32,
            NativeType::I64,
            NativeType::F32,
        ],
    ));
}

#[test]
fn test_validate_types_quintuple_fail() {
    assert!(!validate_types(
        &vec![
            ValueType::I32,
            ValueType::I64,
            ValueType::I32,
            ValueType::F32,
            ValueType::F64,
        ],
        &vec![
            NativeType::F64,
            NativeType::U32,
            NativeType::I32,
            NativeType::I64,
            NativeType::F32,
        ],
    ));
}

#[test]
fn validate_types_length_mismatch() {
    assert!(!validate_types(&vec![ValueType::I32], &vec![]));
    assert!(!validate_types(&vec![], &vec![NativeType::I32]));
    assert!(validate_types(&vec![], &vec![]));
}

#[test]
fn validate_ret_arities() {
    // No declared returns is valid only for unit.
    assert!(validate_ret(&vec![], None));
    assert!(!validate_ret(&vec![], Some(NativeType::I32)));
    // Exactly one declared return must match.
    assert!(validate_ret(&vec![ValueType::I32], Some(NativeType::Bool)));
    assert!(!validate_ret(&vec![ValueType::F64], Some(NativeType::F32)));
    assert!(!validate_ret(&vec![ValueType::I32], None));
    // More than one declared return never matches.
    assert!(!validate_ret(
        &vec![ValueType::I32, ValueType::I32],
        Some(NativeType::I32)
    ));
}

#[test]
fn tags_and_signature_chars() {
    assert_eq!(tag_of(NativeType::I32), ValueType::I32);
    assert_eq!(tag_of(NativeType::U32), ValueType::I32);
    assert_eq!(tag_of(NativeType::Bool), ValueType::I32);
    assert_eq!(tag_of(NativeType::I64), ValueType::I64);
    assert_eq!(tag_of(NativeType::U64), ValueType::I64);
    assert_eq!(tag_of(NativeType::F32), ValueType::F32);
    assert_eq!(tag_of(NativeType::F64), ValueType::F64);
    assert_eq!(signature_char(NativeType::I32), b'i');
    assert_eq!(signature_char(NativeType::U64), b'I');
    assert_eq!(signature_char(NativeType::F32), b'f');
    assert_eq!(signature_char(NativeType::F64), b'F');
}

#[test]
fn function_signature_exact() {
    // A function of (u32, f32) -> f64 has the textual signature "F(if)".
    let sig = function_signature(&vec![NativeType::U32, NativeType::F32], Some(NativeType::F64));
    assert_eq!(sig, vec![b'F', b'(', b'i', b'f', b')', 0u8]);
    // A function of () -> () has the textual signature "v()".
    let sig = function_signature(&vec![], None);
    assert_eq!(sig, vec![b'v', b'(', b')', 0u8]);
}

#[test]
fn slot_round_trip_integers() {
    for v in [
        WasmValue::I32(0),
        WasmValue::I32(-1),
        WasmValue::I32(i32::MIN),
        WasmValue::U32(u32::MAX),
        WasmValue::Bool(true),
        WasmValue::Bool(false),
        WasmValue::I64(i64::MIN),
        WasmValue::I64(-42),
        WasmValue::U64(u64::MAX),
    ] {
        let mut slot: u64 = 0;
        write_slot(&v, &mut slot);
        assert_eq!(read_slot(slot, native_type_of(&v)), v);
    }
}

#[test]
fn slot_encodings_are_exact() {
    // 32-bit kinds occupy the low half of a slot, zero-extended.
    let mut slot: u64 = 0;
    write_slot(&WasmValue::I32(-1), &mut slot);
    assert_eq!(slot, 0xFFFF_FFFF);
    write_slot(&WasmValue::Bool(true), &mut slot);
    assert_eq!(slot, 1);
    write_slot(&WasmValue::I64(-1), &mut slot);
    assert_eq!(slot, u64::MAX);
    write_slot(&WasmValue::F32(0x7FC0_0000), &mut slot);
    assert_eq!(slot, 0x7FC0_0000);
    // A nonzero low half decodes to true at the boolean kind.
    assert_eq!(read_slot(2, NativeType::Bool), WasmValue::Bool(true));
    assert_eq!(read_slot(0, NativeType::Bool), WasmValue::Bool(false));
}

#[test]
fn slot_round_trip_float_bits() {
    // Bit patterns are reinterpreted, never converted: a NaN payload must
    // survive the round trip bit for bit.
    let nan32 = f32::NAN.to_bits() | 0x0000_1234;
    let v = WasmValue::F32(nan32);
    let mut slot: u64 = 0;
    write_slot(&v, &mut slot);
    match read_slot(slot, NativeType::F32) {
        WasmValue::F32(bits) => {
            assert_eq!(bits, nan32);
            assert!(f32::from_bits(bits).is_nan());
        }
        other => panic!("unexpected value {:?}", other),
    }

    let nan64 = f64::NAN.to_bits() | 0x0000_0000_dead_beef;
    let v = WasmValue::F64(nan64);
    let mut slot: u64 = 0;
    write_slot(&v, &mut slot);
    match read_slot(slot, NativeType::F64) {
        WasmValue::F64(bits) => {
            assert_eq!(bits, nan64);
            assert!(f64::from_bits(bits).is_nan());
        }
        other => panic!("unexpected value {:?}", other),
    }
}

#[test]
fn typed_round_trip_via_trait() {
    fn round_trip<T: WasmArg + Copy + PartialEq + std::fmt::Debug>(x: T) {
        let mut slot: u64 = 0;
        x.push_on_stack(&mut slot);
        assert_eq!(T::pop_from_stack(&slot), x);
    }
    round_trip(-7i32);
    round_trip(3_000_000_000u32);
    round_trip(true);
    round_trip(false);
    round_trip(i64::MAX);
    round_trip(u64::MAX - 1);
    round_trip(F32Bits { bits: 1.5f32.to_bits() });
    round_trip(F64Bits { bits: (-0.0f64).to_bits() });
}

#[test]
fn multi_value_encoding_is_positional() {
    let values = vec![
        WasmValue::U32(7),
        WasmValue::F32(2.5f32.to_bits()),
        WasmValue::I64(-9),
    ];
    let types = vec![NativeType::U32, NativeType::F32, NativeType::I64];
    assert!(check_values(&values, &types));
    let slots = encode_values(&values);
    assert_eq!(slots.len(), 3);
    assert_eq!(slots[0], 7);
    assert_eq!(slots[1], 2.5f32.to_bits() as u64);
    let decoded = decode_values(&slots, &types, 0);
    assert_eq!(decoded, values);
}

#[test]
fn check_values_rejects_kind_mismatch() {
    let values = vec![WasmValue::U32(7)];
    assert!(!check_values(&values, &vec![NativeType::I32]));
    assert!(!check_values(&values, &vec![]));
}

#[test]
fn ret_slot_counts() {
    assert_eq!(ret_slot_count(None), 0);
    assert_eq!(ret_slot_count(Some(NativeType::F64)), 1);
}
