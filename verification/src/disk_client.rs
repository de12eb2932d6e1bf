//! Replay of a recorded telemetry capture.
//!
//! A capture file holds the same header as the live region, then a
//! capture-specific sub-header, the session-info text, the variable
//! table, and one fixed-length row per recorded tick, back to back.  The
//! identical header, schema and decoder stack is used; sequential reads
//! replace the consistency protocol, since a file has no concurrent
//! writer, and the end of the data signals the end of the stream.

use vstd::prelude::*;
use std::sync::Arc;
use yaml_rust::Yaml;
use crate::codepage::cp1252_decode;
use crate::constants::IRSDK_VER;
use crate::error::TelemetryError;
use crate::header::{
    disk_sub_header_matches, header_matches, DiskSubHeader, Header, DISK_SUB_HEADER_BYTES,
    HEADER_BYTES,
};
use crate::raw_bytes::le_i32_at;
use crate::sample::SimState;
use crate::schema::{table_parses_to, VarHeader, VarTable};
use crate::session_info::{parse_session_info, session_document_of};
use crate::shared::arc_clone;

verus! {

broadcast use vstd::slice::axiom_spec_len;

/// A replay source over the bytes of one capture.
#[derive(Debug)]
pub struct DiskClient {
    data: Vec<u8>,
    cursor: usize,
    header: Header,
    sub_header: DiskSubHeader,
    variables: Arc<VarTable>,
    session_info: Option<Arc<Yaml>>,
}

/// Whether the session-info region the header points at lies within the
/// capture.
pub open spec fn session_region_ok(h: Header, len: int) -> bool {
    &&& h.session_info_offset >= 0
    &&& h.session_info_len >= 0
    &&& h.session_info_offset + h.session_info_len <= len
}

/// The bytes of the session-info region.
pub open spec fn session_region(h: Header, data: Seq<u8>) -> Seq<u8> {
    data.subrange(
        h.session_info_offset as int,
        h.session_info_offset + h.session_info_len,
    )
}

impl DiskClient {
    /// The capture bytes.
    pub closed spec fn spec_data(&self) -> Seq<u8> {
        self.data@
    }

    /// The read position of the next row.
    pub closed spec fn spec_cursor(&self) -> int {
        self.cursor as int
    }

    /// The capture's header.
    pub closed spec fn spec_header(&self) -> Header {
        self.header
    }

    /// The capture's sub-header.
    pub closed spec fn spec_sub_header(&self) -> DiskSubHeader {
        self.sub_header
    }

    /// The capture's variable table.
    pub closed spec fn spec_variables(&self) -> Seq<VarHeader> {
        self.variables@
    }

    /// The capture's session-info document, if it parsed.
    pub closed spec fn spec_session_info(&self) -> Option<Arc<Yaml>> {
        self.session_info
    }

    /// Open a capture from its bytes: parse the header, check the
    /// protocol version, parse the sub-header, the session info and the
    /// variable table, and position the cursor at the first row.
    pub fn open(data: Vec<u8>) -> (r: Result<DiskClient, TelemetryError>)
        ensures
            ({
                let len = data@.len() as int;
                &&& (r matches Err(e) ==> if len < HEADER_BYTES {
                    e == TelemetryError::TruncatedRegion
                } else if le_i32_at(data@, 0) != IRSDK_VER {
                    e == (TelemetryError::VersionMismatch {
                        expected: IRSDK_VER,
                        found: le_i32_at(data@, 0) as i32,
                    })
                } else {
                    len < HEADER_BYTES + DISK_SUB_HEADER_BYTES && e
                        == TelemetryError::TruncatedRegion
                })
                &&& (r is Ok <==> len >= HEADER_BYTES + DISK_SUB_HEADER_BYTES && le_i32_at(data@, 0)
                    == IRSDK_VER)
                &&& (r matches Ok(c) ==> {
                    let h = c.spec_header();
                    &&& c.spec_data() == data@
                    &&& header_matches(h, data@)
                    &&& h.ver == IRSDK_VER
                    &&& disk_sub_header_matches(
                        c.spec_sub_header(),
                        data@.subrange(HEADER_BYTES as int, HEADER_BYTES + DISK_SUB_HEADER_BYTES),
                    )
                    &&& (if 0 <= h.var_header_offset <= len {
                        table_parses_to(
                            data@.skip(h.var_header_offset as int),
                            if h.num_vars >= 0 {
                                h.num_vars as int
                            } else {
                                0
                            },
                            c.spec_variables(),
                        )
                    } else {
                        c.spec_variables() == Seq::<VarHeader>::empty()
                    })
                    &&& (c.spec_session_info() is Some <==> (session_region_ok(h, len)
                        && session_document_of(cp1252_decode(session_region(h, data@))) is Some))
                    &&& (c.spec_session_info() matches Some(d) ==> (session_document_of(
                        cp1252_decode(session_region(h, data@)),
                    ) matches Some(parsed) && parsed == d))
                    &&& c.spec_cursor() == (if 0 <= h.var_buf[0].buf_offset <= len {
                        h.var_buf[0].buf_offset as int
                    } else {
                        len
                    })
                })
            }),
    {
        let header = match Header::parse(data.as_slice()) {
            Some(h) => h,
            None => {
                return Err(TelemetryError::TruncatedRegion);
            },
        };
        if header.ver != IRSDK_VER {
            return Err(TelemetryError::VersionMismatch { expected: IRSDK_VER, found: header.ver });
        }
        let len = data.len();
        if len < HEADER_BYTES + DISK_SUB_HEADER_BYTES {
            return Err(TelemetryError::TruncatedRegion);
        }
        let sub_slice = vstd::slice::slice_subrange(
            data.as_slice(),
            HEADER_BYTES,
            HEADER_BYTES + DISK_SUB_HEADER_BYTES,
        );
        let sub_header = match DiskSubHeader::parse(sub_slice) {
            Some(s) => s,
            None => {
                return Err(TelemetryError::TruncatedRegion);
            },
        };
        let session_info = if header.session_info_offset >= 0 && header.session_info_len >= 0 {
            let start = header.session_info_offset as usize;
            let slen = header.session_info_len as usize;
            if start <= len && slen <= len - start {
                let region = vstd::slice::slice_subrange(data.as_slice(), start, start + slen);
                match parse_session_info(region) {
                    Ok(doc) => Some(Arc::new(doc)),
                    Err(_) => None,
                }
            } else {
                None
            }
        } else {
            None
        };
        let variables = if header.var_header_offset >= 0 && header.var_header_offset as usize
            <= len {
            let table_bytes = vstd::slice::slice_subrange(
                data.as_slice(),
                header.var_header_offset as usize,
                len,
            );
            let num_vars: usize = if header.num_vars >= 0 {
                header.num_vars as usize
            } else {
                0
            };
            VarTable::parse(table_bytes, num_vars)
        } else {
            VarTable::new()
        };
        let cursor: usize = if header.var_buf[0].buf_offset >= 0 && header.var_buf[0].buf_offset
            as usize <= len {
            header.var_buf[0].buf_offset as usize
        } else {
            len
        };
        Ok(
            DiskClient {
                data,
                cursor,
                header,
                sub_header,
                variables: Arc::new(variables),
                session_info,
            },
        )
    }

    /// The capture's header.
    pub fn header(&self) -> (r: &Header)
        ensures
            *r == self.spec_header(),
    {
        &self.header
    }

    /// The capture's sub-header: start and end times, lap count and
    /// record count.
    pub fn sub_header(&self) -> (r: &DiskSubHeader)
        ensures
            *r == self.spec_sub_header(),
    {
        &self.sub_header
    }

    /// The capture's variable table.
    pub fn variables(&self) -> (r: &VarTable)
        ensures
            r@ == self.spec_variables(),
    {
        &self.variables
    }

    /// The capture's session-info document, when it parsed.
    pub fn session_info(&self) -> (r: Option<&Yaml>)
        ensures
            r is Some <==> self.spec_session_info() is Some,
            r matches Some(doc) ==> (self.spec_session_info() matches Some(d) && d == doc),
    {
        match &self.session_info {
            Some(doc) => Some(&**doc),
            None => None,
        }
    }

    /// Read the next row and bundle it into a sample; the end of the data
    /// ends the stream.  Every sample of a replay shares the capture's
    /// header, table and session info.
    pub fn next_sim_state(&mut self) -> (r: Option<SimState>)
        ensures
            ({
                let row_len = old(self).spec_header().buf_len as int;
                let fits = old(self).spec_header().buf_len >= 0 && old(self).spec_cursor() + row_len
                    <= old(self).spec_data().len();
                &&& (r is Some <==> fits)
                &&& (r matches Some(s) ==> {
                    &&& s.spec_raw_data() == old(self).spec_data().subrange(
                        old(self).spec_cursor(),
                        old(self).spec_cursor() + row_len,
                    )
                    &&& s.spec_header() == old(self).spec_header()
                    &&& s.spec_variables() == old(self).spec_variables()
                    &&& s.spec_session_info() == old(self).spec_session_info()
                    &&& final(self).spec_cursor() == old(self).spec_cursor() + row_len
                })
                &&& (r is None ==> *final(self) == *old(self))
                &&& final(self).spec_data() == old(self).spec_data()
                &&& final(self).spec_header() == old(self).spec_header()
                &&& final(self).spec_variables() == old(self).spec_variables()
                &&& final(self).spec_session_info() == old(self).spec_session_info()
            }),
    {
        if self.header.buf_len < 0 {
            return None;
        }
        let row_len = self.header.buf_len as usize;
        let len = self.data.len();
        if row_len > len || self.cursor > len - row_len {
            return None;
        }
        let row_slice = vstd::slice::slice_subrange(
            self.data.as_slice(),
            self.cursor,
            self.cursor + row_len,
        );
        let row = vstd::slice::slice_to_vec(row_slice);
        let session = match &self.session_info {
            Some(doc) => Some(arc_clone(doc)),
            None => None,
        };
        let sample = SimState::new(self.header, arc_clone(&self.variables), row, session);
        self.cursor = self.cursor + row_len;
        Some(sample)
    }
}

} // verus!
