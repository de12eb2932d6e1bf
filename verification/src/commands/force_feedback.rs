//! Commands to control the force-feedback override.
//!
//! While the override is set it blocks the in-game setting.  A force is
//! carried fixed-point, multiplied by 65536 and truncated; clearing the
//! override is encoded as the sentinel value -1, not as a literal
//! negative force.

use vstd::prelude::*;
use crate::commands::{BroadcastPayload, BROADCAST_FFB_COMMAND};

verus! {

/// The fixed-point second parameter that clears the override: the
/// sentinel -1 scaled by 65536.
pub const FFB_CLEAR_SENTINEL: i64 = -65536;

/// Clear the force-feedback override and unlock the in-game setting.
pub fn clear() -> (r: BroadcastPayload)
    ensures
        r.code == BROADCAST_FFB_COMMAND,
        r.var1 == 0,
        r.var2 == FFB_CLEAR_SENTINEL,
{
    BroadcastPayload { code: BROADCAST_FFB_COMMAND, var1: 0, var2: FFB_CLEAR_SENTINEL }
}

/// Set the force-feedback override to a maximum force already encoded as
/// fixed point, 65536 per unit.  Only positive forces may be set; the
/// sentinel of [`clear`] is the one negative value ever sent.
pub fn set_fixed_point(force_fixed_point: i64) -> (r: BroadcastPayload)
    requires
        force_fixed_point > 0,
    ensures
        r.code == BROADCAST_FFB_COMMAND,
        r.var1 == 0,
        r.var2 == force_fixed_point,
{
    BroadcastPayload { code: BROADCAST_FFB_COMMAND, var1: 0, var2: force_fixed_point }
}

} // verus!
