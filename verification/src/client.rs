//! The live-client state machine.
//!
//! One poll proceeds in plain steps, each a decision over values the
//! platform layer read from the live region: re-read the header; rebuild
//! the variable table when the row length changed; refresh the session
//! info when its counter changed; select the freshest buffer; and accept
//! the first consistent copy that is strictly newer than the last
//! delivered tick.  The platform layer performs the raw reads and the
//! bounded waits between polls; every decision in between is made here.
//!
//! Delivered tick counts are strictly increasing within a connection: a
//! poll hands out a sample only for a tick strictly above the last
//! delivered one, and the baseline set at connection (or after a
//! disconnect) is itself never delivered.

use vstd::prelude::*;
use std::sync::Arc;
use yaml_rust::Yaml;
use crate::consistency::{accepted_index, buf_count, select_buffer, spec_latest_index, RowRead};
use crate::constants::IRSDK_VER;
use crate::error::TelemetryError;
use crate::header::{spec_status_connected, Header};
use crate::sample::SimState;
use crate::schema::{table_parses_to, VarHeader, VarTable};
use crate::session_info::SessionInfoCache;
use crate::shared::arc_clone;

verus! {

/// A still-mapped connection without a valid sample for this long is
/// considered dead, even while the status bit stays set.
pub const CLIENT_TIMEOUT_MILLIS: u64 = 30000;

/// How long one wait on the data-valid signal may block, in milliseconds.
pub const WAIT_TIMEOUT_MILLIS: u64 = 250;

/// What one poll of the region yielded.
pub enum PollOutcome {
    /// The connected status bit is clear; the stream ends.
    Disconnected,
    /// Nothing strictly newer than the last delivered tick, or only torn
    /// copies; wait and poll again.
    NoNewData,
    /// A consistent, strictly fresher row.
    Sample(SimState),
}

/// The per-connection state of the live client.
pub struct LiveClient {
    vars_at_buf_len: i32,
    vars: Arc<VarTable>,
    session_info_cache: SessionInfoCache,
    last_tick_count: Option<i32>,
    last_valid_millis: Option<u64>,
}

impl LiveClient {
    /// The row length the current variable table was built for, or -1
    /// before the first build.
    pub closed spec fn table_row_len(&self) -> i32 {
        self.vars_at_buf_len
    }

    /// The descriptors of the current schema generation.
    pub closed spec fn table(&self) -> Seq<VarHeader> {
        self.vars@
    }

    /// The tick count of the last delivered sample; absent while no
    /// baseline exists, at connection and after a disconnect.
    pub closed spec fn last_delivered(&self) -> Option<i32> {
        self.last_tick_count
    }

    /// When the last sample was accepted, in the caller's clock.
    pub closed spec fn last_valid_time(&self) -> Option<u64> {
        self.last_valid_millis
    }

    /// The update counter the cached session info was parsed from.
    pub closed spec fn cache_counter(&self) -> Option<i32> {
        self.session_info_cache.cached_counter()
    }

    /// The cached shared session-info document.
    pub closed spec fn cache_doc(&self) -> Option<Arc<Yaml>> {
        self.session_info_cache.cached_doc()
    }

    /// A fresh client, before any poll.
    pub fn new() -> (r: LiveClient)
        ensures
            r.table_row_len() == -1,
            r.table() == Seq::<VarHeader>::empty(),
            r.last_delivered() is None,
            r.last_valid_time() is None,
            r.cache_counter() is None,
            r.cache_doc() is None,
    {
        LiveClient {
            vars_at_buf_len: -1,
            vars: Arc::new(VarTable::new()),
            session_info_cache: SessionInfoCache::new(),
            last_tick_count: None,
            last_valid_millis: None,
        }
    }

    /// Check the region's protocol version; a mismatch is fatal for the
    /// connection attempt and is never retried past.
    pub fn check_version(ver: i32) -> (r: Result<(), TelemetryError>)
        ensures
            r is Ok <==> ver == IRSDK_VER,
            r matches Err(e) ==> e == (TelemetryError::VersionMismatch {
                expected: IRSDK_VER,
                found: ver,
            }),
    {
        if ver == IRSDK_VER {
            Ok(())
        } else {
            Err(TelemetryError::VersionMismatch { expected: IRSDK_VER, found: ver })
        }
    }

    /// Whether the variable table must be rebuilt before the next row is
    /// decoded: the header's row length differs from the one the current
    /// table was built for.
    pub fn needs_var_table(&self, header: &Header) -> (r: bool)
        ensures
            r == (self.table_row_len() != header.buf_len),
    {
        self.vars_at_buf_len != header.buf_len
    }

    /// Rebuild the variable table from the raw table bytes, replacing the
    /// previous generation wholesale.
    pub fn install_var_table(&mut self, header: &Header, raw: &[u8])
        ensures
            final(self).table_row_len() == header.buf_len,
            table_parses_to(
                raw@,
                if header.num_vars >= 0 {
                    header.num_vars as int
                } else {
                    0
                },
                final(self).table(),
            ),
            final(self).last_delivered() == old(self).last_delivered(),
            final(self).last_valid_time() == old(self).last_valid_time(),
            final(self).cache_counter() == old(self).cache_counter(),
            final(self).cache_doc() == old(self).cache_doc(),
    {
        let num_vars: usize = if header.num_vars >= 0 {
            header.num_vars as usize
        } else {
            0
        };
        self.vars = Arc::new(VarTable::parse(raw, num_vars));
        self.vars_at_buf_len = header.buf_len;
    }

    /// Whether the session-info bytes must be re-read and re-parsed: the
    /// header's update counter differs from the cached one.
    pub fn session_needs_refresh(&self, header: &Header) -> (r: bool)
        ensures
            r == (self.cache_counter() != Some(header.session_info_update)),
    {
        !self.session_info_cache.is_current(header.session_info_update)
    }

    /// Parse fresh session-info bytes under the header's update counter.
    /// Failure leaves the cache unchanged and costs no telemetry row.
    pub fn refresh_session(&mut self, header: &Header, raw: &[u8]) -> (r: Result<
        (),
        TelemetryError,
    >)
        ensures
            r is Ok <==> crate::session_info::session_document_of(
                crate::codepage::cp1252_decode(raw@),
            ) is Some,
            r is Ok ==> final(self).cache_counter() == Some(header.session_info_update),
            r matches Err(e) ==> e == TelemetryError::SessionInfoUnavailable
                && final(self).cache_counter() == old(self).cache_counter()
                && final(self).cache_doc() == old(self).cache_doc(),
            final(self).table_row_len() == old(self).table_row_len(),
            final(self).table() == old(self).table(),
            final(self).last_delivered() == old(self).last_delivered(),
            final(self).last_valid_time() == old(self).last_valid_time(),
    {
        self.session_info_cache.refresh(header.session_info_update, raw)
    }

    /// The cached shared session-info document, if any.
    pub fn session_info(&self) -> (r: Option<Arc<Yaml>>)
        ensures
            r == self.cache_doc(),
    {
        self.session_info_cache.cached()
    }

    /// Whether the connection is still live: the status bit is set and a
    /// valid sample was produced within the liveness window.  A caller's
    /// clock running backwards counts as dead.
    pub fn is_connected(&self, header: &Header, now_millis: u64) -> (r: bool)
        ensures
            r == (spec_status_connected(header.status as int) && match self.last_valid_time() {
                None => true,
                Some(t) => t <= now_millis && now_millis - t < CLIENT_TIMEOUT_MILLIS,
            }),
    {
        if !header.is_connected() {
            return false;
        }
        match self.last_valid_millis {
            None => true,
            Some(t) => t <= now_millis && now_millis - t < CLIENT_TIMEOUT_MILLIS,
        }
    }

    /// Decide one poll, from the header snapshot and the copy attempts
    /// the platform layer performed against the freshest buffer.
    ///
    /// A sample is delivered only for the first attempt whose two tick
    /// reads match and whose tick is strictly newer than the last
    /// delivered one; the sample captures the current table and session
    /// info together with the row.
    pub fn poll(&mut self, header: &Header, attempts: Vec<RowRead>, now_millis: u64) -> (r:
        PollOutcome)
        requires
            old(self).table_row_len() == header.buf_len,
        ensures
            final(self).table() == old(self).table(),
            final(self).table_row_len() == old(self).table_row_len(),
            final(self).cache_counter() == old(self).cache_counter(),
            final(self).cache_doc() == old(self).cache_doc(),
            (r is Disconnected <==> !spec_status_connected(header.status as int)),
            !spec_status_connected(header.status as int) ==> final(self).last_delivered() is None
                && final(self).last_valid_time() == old(self).last_valid_time(),
            spec_status_connected(header.status as int) ==> ({
                let tick = header.var_buf[spec_latest_index(*header, buf_count(*header))].tick_count;
                match old(self).last_delivered() {
                    None => r is NoNewData && final(self).last_delivered() == Some(tick)
                        && final(self).last_valid_time() == old(self).last_valid_time(),
                    Some(last) => if tick <= last {
                        r is NoNewData && *final(self) == *old(self)
                    } else {
                        match accepted_index(attempts@, last as int) {
                            Some(i) => (r matches PollOutcome::Sample(s)
                                && s.spec_raw_data() == attempts@[i].row@
                                && s.spec_header() == *header
                                && s.spec_variables() == old(self).table()
                                && s.spec_session_info() == old(self).cache_doc()
                                && final(self).last_delivered() == Some(attempts@[i].tick_before)
                                && attempts@[i].tick_before > last
                                && final(self).last_valid_time() == Some(now_millis)),
                            None => r is NoNewData && *final(self) == *old(self),
                        }
                    },
                }
            }),
    {
        if !header.is_connected() {
            self.last_tick_count = None;
            return PollOutcome::Disconnected;
        }
        let latest = select_buffer(header);
        let tick = header.var_buf[latest].tick_count;
        let last = match self.last_tick_count {
            None => {
                self.last_tick_count = Some(tick);
                return PollOutcome::NoNewData;
            },
            Some(l) => l,
        };
        if tick <= last {
            return PollOutcome::NoNewData;
        }
        let ghost orig_attempts = attempts@;
        let mut attempts = attempts;
        let n = attempts.len();
        let mut i: usize = 0;
        #[verifier::loop_isolation(false)]
        while i < n
            invariant
                i <= n,
                n == attempts@.len(),
                attempts@ == orig_attempts,
                *self == *old(self),
                forall|j: int|
                    0 <= j < i ==> !(attempts@[j].consistent() && attempts@[j].tick_before > last),
            decreases n - i,
        {
            if attempts[i].tick_before == attempts[i].tick_after && attempts[i].tick_before > last {
                proof {
                    lemma_accepted_first(attempts@, last as int, i as int);
                }
                let accepted = attempts.remove(i);
                self.last_tick_count = Some(accepted.tick_before);
                self.last_valid_millis = Some(now_millis);
                let session = self.session_info_cache.cached();
                let sample = SimState::new(*header, arc_clone(&self.vars), accepted.row, session);
                return PollOutcome::Sample(sample);
            }
            i = i + 1;
        }
        proof {
            lemma_accepted_first(attempts@, last as int, n as int);
        }
        PollOutcome::NoNewData
    }
}

/// When the first `i` attempts are rejected, the accepted attempt is the
/// `i`-th exactly when it meets the acceptance test.
proof fn lemma_accepted_first(attempts: Seq<RowRead>, last: int, i: int)
    requires
        0 <= i <= attempts.len(),
        forall|j: int| 0 <= j < i ==> !(attempts[j].consistent() && attempts[j].tick_before > last),
        i < attempts.len() ==> attempts[i].consistent() && attempts[i].tick_before > last,
    ensures
        accepted_index(attempts, last) == if i < attempts.len() {
            Some(i)
        } else {
            None::<int>
        },
    decreases attempts.len(),
{
    if attempts.len() > 0 {
        if i == 0 {
        } else {
            let rest = attempts.drop_first();
            assert forall|j: int| 0 <= j < i - 1 implies !(rest[j].consistent()
                && rest[j].tick_before > last) by {
                assert(rest[j] == attempts[j + 1]);
            }
            assert(i - 1 < rest.len() ==> rest[i - 1] == attempts[i]);
            lemma_accepted_first(rest, last, i - 1);
        }
    }
}

} // verus!
