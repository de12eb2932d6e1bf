//! The fixed-size prologue of the shared region and of capture files.
//!
//! The header is re-read on every poll because the writer mutates it in
//! place; a parsed `Header` value is therefore always a snapshot.  All
//! offsets stored in the header are relative to the start of the region.

use vstd::prelude::*;
use crate::raw_bytes::{le_i32_at, le_u64_at, read_i32_le, read_u64_le};

verus! {

broadcast use vstd::slice::axiom_spec_len;

/// Number of bytes of the fixed region prologue.
pub const HEADER_BYTES: usize = 112;

/// Number of rotating row buffers the header always describes; only the
/// first `num_buf` of them are in use.
pub const MAX_BUFS: usize = 4;

/// Number of bytes of the capture-file sub-header that follows the region
/// prologue on disk.
pub const DISK_SUB_HEADER_BYTES: usize = 32;

/// Descriptor of one rotating row buffer.
#[derive(Clone, Copy, Debug, PartialEq, Eq, Structural)]
pub struct VarBuf {
    /// Tick stamped by the writer when the buffer was last filled; used to
    /// detect both freshness and torn reads.
    pub tick_count: i32,
    /// Byte offset of the buffer's row, relative to the region start.
    pub buf_offset: i32,
}

/// Parsed snapshot of the region prologue.
#[derive(Clone, Copy, Debug)]
pub struct Header {
    /// Protocol version the writer implements.
    pub ver: i32,
    /// Status bitfield; bit 0 is "simulator connected".
    pub status: i32,
    /// Rows written per second.
    pub tick_rate: i32,
    /// Incremented whenever the session-info blob changes.
    pub session_info_update: i32,
    /// Byte length of the session-info blob.
    pub session_info_len: i32,
    /// Byte offset of the session-info blob.
    pub session_info_offset: i32,
    /// Number of records in the variable table.
    pub num_vars: i32,
    /// Byte offset of the variable table.
    pub var_header_offset: i32,
    /// Number of row buffers in use, at most `MAX_BUFS`.
    pub num_buf: i32,
    /// Byte length of one row.
    pub buf_len: i32,
    /// The row buffer descriptors.
    pub var_buf: [VarBuf; 4],
}

/// Bit 0 of `Header::status`: the simulator is connected.
pub const STATUS_CONNECTED_FLAG: i32 = 1;

/// Field-by-field relation between a header snapshot and the raw bytes it
/// was read from.
pub open spec fn header_matches(h: Header, s: Seq<u8>) -> bool {
    &&& h.ver == le_i32_at(s, 0)
    &&& h.status == le_i32_at(s, 4)
    &&& h.tick_rate == le_i32_at(s, 8)
    &&& h.session_info_update == le_i32_at(s, 12)
    &&& h.session_info_len == le_i32_at(s, 16)
    &&& h.session_info_offset == le_i32_at(s, 20)
    &&& h.num_vars == le_i32_at(s, 24)
    &&& h.var_header_offset == le_i32_at(s, 28)
    &&& h.num_buf == le_i32_at(s, 32)
    &&& h.buf_len == le_i32_at(s, 36)
    &&& forall|k: int|
        0 <= k < 4 ==> h.var_buf[k].tick_count == le_i32_at(s, 48 + 16 * k)
            && h.var_buf[k].buf_offset == le_i32_at(s, 52 + 16 * k)
}

impl Header {
    /// Read a header snapshot from the first `HEADER_BYTES` bytes of the
    /// region or capture file; absent when the data is too short.
    pub fn parse(raw: &[u8]) -> (r: Option<Header>)
        ensures
            r is Some <==> raw.len() >= HEADER_BYTES,
            r matches Some(h) ==> header_matches(h, raw@),
    {
        if raw.len() < HEADER_BYTES {
            return None;
        }
        let var_buf = [
            VarBuf { tick_count: read_i32_le(raw, 48), buf_offset: read_i32_le(raw, 52) },
            VarBuf { tick_count: read_i32_le(raw, 64), buf_offset: read_i32_le(raw, 68) },
            VarBuf { tick_count: read_i32_le(raw, 80), buf_offset: read_i32_le(raw, 84) },
            VarBuf { tick_count: read_i32_le(raw, 96), buf_offset: read_i32_le(raw, 100) },
        ];
        Some(
            Header {
                ver: read_i32_le(raw, 0),
                status: read_i32_le(raw, 4),
                tick_rate: read_i32_le(raw, 8),
                session_info_update: read_i32_le(raw, 12),
                session_info_len: read_i32_le(raw, 16),
                session_info_offset: read_i32_le(raw, 20),
                num_vars: read_i32_le(raw, 24),
                var_header_offset: read_i32_le(raw, 28),
                num_buf: read_i32_le(raw, 32),
                buf_len: read_i32_le(raw, 36),
                var_buf,
            },
        )
    }

    /// Whether the "simulator connected" status bit is set.
    pub fn is_connected(&self) -> (r: bool)
        ensures
            r == spec_status_connected(self.status as int),
    {
        self.status % 2 == 1 || self.status % 2 == -1
    }
}

/// Whether bit 0 of the status word is set, on its two's-complement value.
pub open spec fn spec_status_connected(status: int) -> bool {
    status % 2 == 1 || status % 2 == -1
}

/// Capture-file sub-header; the two time fields are IEEE 754 double bits,
/// kept as raw bits here and interpreted by the caller.
#[derive(Clone, Copy, Debug, PartialEq, Eq, Structural)]
pub struct DiskSubHeader {
    pub session_start_date: i64,
    pub session_start_time_bits: u64,
    pub session_end_time_bits: u64,
    pub session_lap_count: i32,
    pub session_record_count: i32,
}

/// Field-by-field relation between a sub-header and its raw bytes.
pub open spec fn disk_sub_header_matches(h: DiskSubHeader, s: Seq<u8>) -> bool {
    &&& h.session_start_date == crate::raw_bytes::le_i64_at(s, 0)
    &&& h.session_start_time_bits == le_u64_at(s, 8)
    &&& h.session_end_time_bits == le_u64_at(s, 16)
    &&& h.session_lap_count == le_i32_at(s, 24)
    &&& h.session_record_count == le_i32_at(s, 28)
}

impl DiskSubHeader {
    /// Read the capture-file sub-header from `DISK_SUB_HEADER_BYTES` bytes;
    /// absent when the data is too short.
    pub fn parse(raw: &[u8]) -> (r: Option<DiskSubHeader>)
        ensures
            r is Some <==> raw.len() >= DISK_SUB_HEADER_BYTES,
            r matches Some(h) ==> disk_sub_header_matches(h, raw@),
    {
        if raw.len() < DISK_SUB_HEADER_BYTES {
            return None;
        }
        Some(
            DiskSubHeader {
                session_start_date: crate::raw_bytes::read_i64_le(raw, 0),
                session_start_time_bits: read_u64_le(raw, 8),
                session_end_time_bits: read_u64_le(raw, 16),
                session_lap_count: read_i32_le(raw, 24),
                session_record_count: read_i32_le(raw, 28),
            },
        )
    }
}

} // verus!
