//! Variable-table parsing and lookup, and the legacy text decoding.

use simetry::{cp1252_to_string, TelemetryError, VarHeader, VarTable, VarType, VAR_RECORD_BYTES};

fn record(var_type: i32, offset: i32, count: i32, name: &str, unit: &str) -> Vec<u8> {
    let mut rec = vec![0u8; VAR_RECORD_BYTES];
    rec[0..4].copy_from_slice(&var_type.to_le_bytes());
    rec[4..8].copy_from_slice(&offset.to_le_bytes());
    rec[8..12].copy_from_slice(&count.to_le_bytes());
    rec[16..16 + name.len()].copy_from_slice(name.as_bytes());
    rec[112..112 + unit.len()].copy_from_slice(unit.as_bytes());
    rec
}

#[test]
fn parses_records_in_order() {
    let mut bytes = record(2, 0, 1, "Gear", "");
    bytes.extend(record(4, 4, 1, "Speed", "m/s"));
    let table = VarTable::parse(&bytes, 2);
    assert_eq!(table.len(), 2);
    let speed = table.get("Speed").unwrap();
    assert_eq!(speed.var_type, VarType::Float);
    assert_eq!(speed.offset, 4);
    assert_eq!(speed.count, 1);
    assert_eq!(speed.unit, "m/s");
    let gear = table.get("Gear").unwrap();
    assert_eq!(gear.var_type, VarType::Int);
    assert_eq!(gear.offset, 0);
    assert!(table.get("RPM").is_none());
}

#[test]
fn invalid_records_are_skipped() {
    let mut bytes = record(9, 0, 1, "Bogus", "");
    bytes.extend(record(2, 0, 1, "Gear", ""));
    bytes.extend(record(2, -4, 1, "NegOffset", ""));
    let table = VarTable::parse(&bytes, 3);
    assert_eq!(table.len(), 1);
    assert!(table.get("Gear").is_some());
    assert!(table.get("Bogus").is_none());
    assert!(table.get("NegOffset").is_none());
}

#[test]
fn later_duplicate_name_wins() {
    let mut bytes = record(2, 0, 1, "Gear", "");
    bytes.extend(record(4, 8, 1, "Gear", ""));
    let table = VarTable::parse(&bytes, 2);
    let gear = table.get("Gear").unwrap();
    assert_eq!(gear.var_type, VarType::Float);
    assert_eq!(gear.offset, 8);
}

#[test]
fn trailing_partial_record_is_ignored() {
    let mut bytes = record(2, 0, 1, "Gear", "");
    bytes.extend(vec![0u8; 100]);
    let table = VarTable::parse(&bytes, 5);
    assert_eq!(table.len(), 1);
}

#[test]
fn count_as_time_flag_is_read() {
    let mut rec = record(2, 0, 3, "LapTimes", "s");
    rec[12] = 1;
    let table = VarTable::parse(&rec, 1);
    assert!(table.get("LapTimes").unwrap().count_as_time);
}

#[test]
fn from_raw_reports_exact_errors() {
    let bad_type = record(6, 0, 1, "X", "");
    assert_eq!(
        VarHeader::from_raw(&bad_type).unwrap_err(),
        TelemetryError::InvalidVarType { raw: 6 }
    );
    let neg_count = record(2, 0, -1, "X", "");
    assert_eq!(
        VarHeader::from_raw(&neg_count).unwrap_err(),
        TelemetryError::InvalidDescriptor
    );
    assert_eq!(
        VarType::from_raw(42).unwrap_err(),
        TelemetryError::InvalidVarType { raw: 42 }
    );
}

#[test]
fn byte_counts_per_type() {
    assert_eq!(VarType::Char.byte_count(), 1);
    assert_eq!(VarType::Bool.byte_count(), 1);
    assert_eq!(VarType::Int.byte_count(), 4);
    assert_eq!(VarType::BitField.byte_count(), 4);
    assert_eq!(VarType::Float.byte_count(), 4);
    assert_eq!(VarType::Double.byte_count(), 8);
}

#[test]
fn legacy_code_page_decodes_ascii_and_high_bytes() {
    assert_eq!(cp1252_to_string(b"kg/m^2"), "kg/m^2");
    assert_eq!(cp1252_to_string(&[0x80]), "\u{20AC}");
    assert_eq!(cp1252_to_string(&[0x99]), "\u{2122}");
    assert_eq!(cp1252_to_string(&[0xE9]), "\u{00E9}");
    assert_eq!(cp1252_to_string(&[0x8D]), " ");
}

#[test]
fn legacy_code_page_stops_at_nul() {
    assert_eq!(cp1252_to_string(b"Speed\0garbage"), "Speed");
    assert_eq!(cp1252_to_string(b"\0"), "");
    assert_eq!(cp1252_to_string(b""), "");
}
