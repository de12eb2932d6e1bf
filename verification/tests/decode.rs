//! Typed value decoding against hand-built descriptors and rows.

use simetry::{
    parse_all, parse_from_raw, BitField, CarPositions, Float32Bits, Float64Bits, Value, VarHeader,
    VarType,
};

fn descriptor(var_type: VarType, offset: usize, count: usize) -> VarHeader {
    VarHeader {
        var_type,
        offset,
        count,
        count_as_time: false,
        name: String::from("Var"),
        desc: String::new(),
        unit: String::new(),
    }
}

#[test]
fn int_round_trips_at_offset() {
    let mut row = vec![0u8; 16];
    row[4..8].copy_from_slice(&(-123456i32).to_le_bytes());
    let h = descriptor(VarType::Int, 4, 1);
    assert_eq!(parse_from_raw::<i32>(0, &h, &row), Some(-123456));
}

#[test]
fn int_array_elements_decode_individually() {
    let mut row = vec![0u8; 20];
    row[0..4].copy_from_slice(&7i32.to_le_bytes());
    row[4..8].copy_from_slice(&8i32.to_le_bytes());
    row[8..12].copy_from_slice(&9i32.to_le_bytes());
    let h = descriptor(VarType::Int, 0, 3);
    assert_eq!(parse_from_raw::<i32>(0, &h, &row), Some(7));
    assert_eq!(parse_from_raw::<i32>(1, &h, &row), Some(8));
    assert_eq!(parse_from_raw::<i32>(2, &h, &row), Some(9));
}

#[test]
fn index_at_or_past_count_is_absent() {
    let mut row = vec![0u8; 16];
    row[0..4].copy_from_slice(&7i32.to_le_bytes());
    let h = descriptor(VarType::Int, 0, 1);
    assert_eq!(parse_from_raw::<i32>(1, &h, &row), None);
    assert_eq!(parse_from_raw::<i32>(100, &h, &row), None);
}

#[test]
fn mismatched_type_tag_is_absent() {
    let mut row = vec![0u8; 16];
    row[0..4].copy_from_slice(&7i32.to_le_bytes());
    let h = descriptor(VarType::Int, 0, 1);
    assert_eq!(parse_from_raw::<u32>(0, &h, &row), None);
    assert_eq!(parse_from_raw::<Float32Bits>(0, &h, &row), None);
    assert_eq!(parse_from_raw::<bool>(0, &h, &row), None);
}

#[test]
fn row_too_short_for_descriptor_is_absent() {
    let row = vec![0u8; 6];
    let h = descriptor(VarType::Int, 4, 1);
    assert_eq!(parse_from_raw::<i32>(0, &h, &row), None);
}

#[test]
fn char_widens_to_int_by_zero_extension() {
    let row = vec![0xF0u8, 0, 0, 0];
    let h = descriptor(VarType::Char, 0, 1);
    assert_eq!(parse_from_raw::<i32>(0, &h, &row), Some(240));
    assert_eq!(parse_from_raw::<u8>(0, &h, &row), Some(0xF0));
}

#[test]
fn bool_decodes_any_nonzero_as_true() {
    let row = vec![0u8, 2u8];
    let h = descriptor(VarType::Bool, 0, 2);
    assert_eq!(parse_from_raw::<bool>(0, &h, &row), Some(false));
    assert_eq!(parse_from_raw::<bool>(1, &h, &row), Some(true));
}

#[test]
fn float_bits_round_trip() {
    let mut row = vec![0u8; 8];
    row[0..4].copy_from_slice(&1.5f32.to_le_bytes());
    let h = descriptor(VarType::Float, 0, 1);
    let bits = parse_from_raw::<Float32Bits>(0, &h, &row).unwrap();
    assert_eq!(f32::from_bits(bits.0), 1.5);
}

#[test]
fn float_field_widens_to_the_equal_double() {
    let h = descriptor(VarType::Float, 0, 1);
    let samples = [
        0.0f32,
        -0.0,
        1.5,
        -2.25,
        3.3,
        f32::MAX,
        f32::MIN_POSITIVE,
        1.0e-40,
        f32::from_bits(1),
        f32::INFINITY,
        f32::NEG_INFINITY,
        f32::NAN,
    ];
    for f in samples {
        let row = f.to_le_bytes().to_vec();
        let wide = parse_from_raw::<Float64Bits>(0, &h, &row).unwrap();
        assert_eq!(wide.0, (f as f64).to_bits());
    }
}

#[test]
fn double_bits_round_trip() {
    let mut row = vec![0u8; 8];
    row[0..8].copy_from_slice(&(-2.25f64).to_le_bytes());
    let h = descriptor(VarType::Double, 0, 1);
    let bits = parse_from_raw::<Float64Bits>(0, &h, &row).unwrap();
    assert_eq!(f64::from_bits(bits.0), -2.25);
}

#[test]
fn generic_value_decodes_every_tag() {
    let mut row = vec![0u8; 32];
    row[0] = 65;
    row[1] = 1;
    row[2..6].copy_from_slice(&(-5i32).to_le_bytes());
    row[6..10].copy_from_slice(&0xDEADBEEFu32.to_le_bytes());
    row[10..14].copy_from_slice(&3.5f32.to_le_bytes());
    row[14..22].copy_from_slice(&7.25f64.to_le_bytes());
    assert_eq!(
        parse_from_raw::<Value>(0, &descriptor(VarType::Char, 0, 1), &row),
        Some(Value::Char(65))
    );
    assert_eq!(
        parse_from_raw::<Value>(0, &descriptor(VarType::Bool, 1, 1), &row),
        Some(Value::Bool(true))
    );
    assert_eq!(
        parse_from_raw::<Value>(0, &descriptor(VarType::Int, 2, 1), &row),
        Some(Value::Int(-5))
    );
    assert_eq!(
        parse_from_raw::<Value>(0, &descriptor(VarType::BitField, 6, 1), &row),
        Some(Value::BitField(0xDEADBEEF))
    );
    assert_eq!(
        parse_from_raw::<Value>(0, &descriptor(VarType::Float, 10, 1), &row),
        Some(Value::Float(3.5f32.to_bits()))
    );
    assert_eq!(
        parse_from_raw::<Value>(0, &descriptor(VarType::Double, 14, 1), &row),
        Some(Value::Double(7.25f64.to_bits()))
    );
}

#[test]
fn bit_field_and_car_positions_decode_from_bit_field_tag() {
    let mut row = vec![0u8; 8];
    row[0..4].copy_from_slice(&4u32.to_le_bytes());
    let h = descriptor(VarType::BitField, 0, 1);
    assert_eq!(parse_from_raw::<BitField>(0, &h, &row).unwrap().0, 4);
    assert_eq!(
        parse_from_raw::<CarPositions>(0, &h, &row),
        Some(CarPositions::CarLeftRight)
    );
    row[0..4].copy_from_slice(&99u32.to_le_bytes());
    assert_eq!(parse_from_raw::<CarPositions>(0, &h, &row), None);
}

#[test]
fn car_position_sides() {
    assert!(CarPositions::CarLeft.car_left());
    assert!(!CarPositions::CarLeft.car_right());
    assert!(CarPositions::CarLeftRight.car_left());
    assert!(CarPositions::CarLeftRight.car_right());
    assert!(!CarPositions::Off.car_left());
    assert!(!CarPositions::Clear.car_right());
    assert!(CarPositions::CarsRight.car_right());
}

#[test]
fn whole_array_decodes_to_vector() {
    let mut row = vec![0u8; 12];
    row[0..4].copy_from_slice(&1.0f32.to_le_bytes());
    row[4..8].copy_from_slice(&2.0f32.to_le_bytes());
    row[8..12].copy_from_slice(&3.0f32.to_le_bytes());
    let h = descriptor(VarType::Float, 0, 3);
    let all = parse_all::<Float32Bits>(&h, &row).unwrap();
    let values: Vec<f32> = all.iter().map(|b| f32::from_bits(b.0)).collect();
    assert_eq!(values, vec![1.0, 2.0, 3.0]);
}

#[test]
fn array_decode_fails_when_row_cannot_hold_it() {
    let row = vec![0u8; 8];
    let h = descriptor(VarType::Float, 0, 3);
    assert!(parse_all::<Float32Bits>(&h, &row).is_none());
}
