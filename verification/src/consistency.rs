//! The lock-free consistency protocol.
//!
//! The writer rotates through the header's row buffers and never signals
//! "done" mid-write, so the reader selects the freshest buffer by tick
//! count and rejects copies caught mid-write itself: it reads the tick
//! count, copies the row, re-reads the tick count, and accepts the copy
//! only when the two reads match.  A bounded number of such attempts is
//! made per poll; when none is consistent the poll simply yields no
//! sample, which never blocks the writer.

use vstd::prelude::*;
use crate::header::Header;

verus! {

/// How many copy attempts one poll makes before giving up.
pub const MAX_COPY_ATTEMPTS: usize = 2;

/// One attempt of the double-read protocol, as performed against the live
/// region: the buffer's tick count read before the copy, the copied row,
/// and the tick count read after the copy.
pub struct RowRead {
    pub tick_before: i32,
    pub row: Vec<u8>,
    pub tick_after: i32,
}

impl RowRead {
    /// Whether the copy is consistent: the buffer was not overwritten
    /// while it was being copied.
    pub open spec fn consistent(&self) -> bool {
        self.tick_before == self.tick_after
    }
}

/// The number of row buffers in use, clamped to the four the header
/// describes.
pub open spec fn buf_count(h: Header) -> int {
    if h.num_buf < 0 {
        0
    } else if h.num_buf > 4 {
        4
    } else {
        h.num_buf as int
    }
}

/// The index of the freshest among the first `n` buffers: highest tick
/// count, ties broken by the lowest index.
pub open spec fn spec_latest_index(h: Header, n: int) -> int
    decreases n,
{
    if n <= 1 {
        0
    } else {
        let prev = spec_latest_index(h, n - 1);
        if h.var_buf[prev].tick_count < h.var_buf[n - 1].tick_count {
            n - 1
        } else {
            prev
        }
    }
}

/// The freshest buffer holds the maximum tick count, and every earlier
/// buffer holds strictly less, so ties go to the lowest index.
pub proof fn lemma_latest_index_freshest(h: Header, n: int)
    requires
        n <= 4,
    ensures
        ({
            let li = spec_latest_index(h, n);
            &&& 0 <= li < (if n < 1 {
                1int
            } else {
                n
            })
            &&& forall|i: int| 0 <= i < n ==> h.var_buf[i].tick_count <= h.var_buf[li].tick_count
            &&& forall|i: int| 0 <= i < li ==> h.var_buf[i].tick_count < h.var_buf[li].tick_count
        }),
    decreases n,
{
    if n > 1 {
        lemma_latest_index_freshest(h, n - 1);
    }
}

/// Select the freshest of the header's row buffers.
pub fn select_buffer(header: &Header) -> (r: usize)
    ensures
        r == spec_latest_index(*header, buf_count(*header)),
        0 <= r < 4,
{
    let nb: usize = if header.num_buf < 0 {
        0
    } else if header.num_buf > 4 {
        4
    } else {
        header.num_buf as usize
    };
    let mut latest: usize = 0;
    let mut idx: usize = 1;
    while idx < nb
        invariant
            1 <= idx <= if nb < 1 {
                1int
            } else {
                nb as int
            },
            nb == buf_count(*header),
            nb <= 4,
            latest == spec_latest_index(*header, idx as int),
            latest < 4,
        decreases nb - idx,
    {
        if header.var_buf[latest].tick_count < header.var_buf[idx].tick_count {
            latest = idx;
        }
        idx = idx + 1;
    }
    latest
}

/// The index of the first attempt that is both consistent and fresh:
/// tick counts matching, and strictly newer than the last delivered tick.
pub open spec fn accepted_index(attempts: Seq<RowRead>, last: int) -> Option<int>
    decreases attempts.len(),
{
    if attempts.len() == 0 {
        None
    } else if attempts.first().consistent() && attempts.first().tick_before > last {
        Some(0)
    } else {
        match accepted_index(attempts.drop_first(), last) {
            Some(i) => Some(i + 1),
            None => None,
        }
    }
}

/// A torn copy is never delivered: the accepted attempt read the same
/// tick count before and after its copy, the tick is strictly newer than
/// the last delivered one, and every earlier attempt was rejected.
pub proof fn lemma_no_torn_delivery(attempts: Seq<RowRead>, last: int)
    ensures
        accepted_index(attempts, last) matches Some(i) ==> {
            &&& 0 <= i < attempts.len()
            &&& attempts[i].consistent()
            &&& attempts[i].tick_before > last
            &&& forall|j: int|
                0 <= j < i ==> !(attempts[j].consistent() && attempts[j].tick_before > last)
        },
    decreases attempts.len(),
{
    if attempts.len() > 0 {
        let rest = attempts.drop_first();
        lemma_no_torn_delivery(rest, last);
        if !(attempts.first().consistent() && attempts.first().tick_before > last) {
            match accepted_index(rest, last) {
                Some(k) => {
                    assert(attempts[k + 1] == rest[k]);
                    assert forall|j: int| 0 <= j < k + 1 implies !(attempts[j].consistent()
                        && attempts[j].tick_before > last) by {
                        if j > 0 {
                            assert(attempts[j] == rest[j - 1]);
                        }
                    }
                },
                None => {},
            }
        }
    }
}

} // verus!
