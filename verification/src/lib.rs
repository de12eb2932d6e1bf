//! Client library for a self-describing shared-memory telemetry protocol
//! used by a racing simulator.
//!
//! The simulator publishes a memory region that starts with a fixed-size
//! header describing rotating row buffers, a runtime-discovered variable
//! table, and a separately versioned session-info text blob.  This crate
//! holds the verified protocol logic: header and schema parsing, typed
//! value decoding, the lock-free consistency protocol, the session-info
//! cache, the live-client state machine, replay of capture files, and the
//! encoding of outbound broadcast commands.  The thin platform layer that
//! maps the region, waits on the OS signal and sends the encoded commands
//! lives outside this crate and hands plain bytes in and out.

mod bit_field;
mod broadcast;
mod car_positions;
mod client;
mod codepage;
pub mod commands;
mod consistency;
mod constants;
mod data_point;
mod disk_client;
mod error;
mod header;
mod raw_bytes;
mod sample;
mod schema;
mod session_info;
mod shared;
mod value;

pub use bit_field::BitField;
pub use broadcast::{PitCommand, ReloadTexturesMode};
pub use car_positions::{car_positions_of, CarPositions};
pub use client::{LiveClient, PollOutcome, CLIENT_TIMEOUT_MILLIS, WAIT_TIMEOUT_MILLIS};
pub use codepage::{cp1252_char, cp1252_decode, cp1252_to_string};
pub use consistency::{
    accepted_index, buf_count, lemma_latest_index_freshest, lemma_no_torn_delivery, select_buffer,
    spec_latest_index, RowRead, MAX_COPY_ATTEMPTS,
};
pub use constants::{IRSDK_VER, UNLIMITED_LAPS};
pub use data_point::DataPoint;
pub use disk_client::DiskClient;
pub use error::TelemetryError;
pub use header::{
    header_matches, spec_status_connected, DiskSubHeader, Header, VarBuf, DISK_SUB_HEADER_BYTES,
    HEADER_BYTES, MAX_BUFS, STATUS_CONNECTED_FLAG,
};
pub use raw_bytes::{
    le_i32_at, le_i64_at, le_u16_at, le_u32_at, le_u64_at, read_i32_le, read_i64_le, read_u16_le,
    read_u32_le, read_u64_le, read_u8_at, u32_le_bytes, u32_of_i32, u64_le_bytes,
};
pub use sample::SimState;
pub use schema::{
    lemma_lookup_finds_name, spec_lookup, table_parses_to, var_header_matches, var_type_of, VarHeader, VarHeaders, VarTable,
    VarType, MAX_DESC, MAX_STRING, VAR_RECORD_BYTES,
};
pub use session_info::{parse_session_info, session_document_of, SessionInfoCache};
pub use value::{
    lemma_decode_bit_field_round_trip, lemma_decode_bool_round_trip, lemma_decode_char_round_trip,
    lemma_decode_double_round_trip, lemma_decode_float_round_trip, lemma_decode_int_round_trip,
    lemma_decode_out_of_range, lemma_generic_decode_succeeds, parse_all, parse_from_raw,
    spec_parse_from_raw, spec_widen_f32_bits, widen_f32_bits, Float32Bits, Float64Bits, Value,
    VarData,
};
