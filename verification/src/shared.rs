//! Reference-counted sharing of parsed structures.
//!
//! The variable table and the session-info document are shared read-only
//! across samples; they are never mutated in place, only replaced.

use vstd::prelude::*;
use std::sync::Arc;

verus! {

/// Relies on `Arc::clone`: the clone is the same shared value.
#[verifier::external_body]
pub(crate) fn arc_clone<T>(v: &Arc<T>) -> (r: Arc<T>)
    ensures
        r == *v,
{
    Arc::clone(v)
}

} // verus!
