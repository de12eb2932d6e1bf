//! Commands to control telemetry recording.

use vstd::prelude::*;
use crate::commands::{BroadcastPayload, BROADCAST_TELEM_COMMAND};

verus! {

pub const TELEM_COMMAND_STOP: u16 = 0;

pub const TELEM_COMMAND_START: u16 = 1;

pub const TELEM_COMMAND_RESTART: u16 = 2;

/// Start telemetry recording.
pub fn start() -> (r: BroadcastPayload)
    ensures
        r.code == BROADCAST_TELEM_COMMAND,
        r.var1 == TELEM_COMMAND_START,
        r.var2 == 0,
{
    BroadcastPayload { code: BROADCAST_TELEM_COMMAND, var1: TELEM_COMMAND_START, var2: 0 }
}

/// Stop telemetry recording.
pub fn stop() -> (r: BroadcastPayload)
    ensures
        r.code == BROADCAST_TELEM_COMMAND,
        r.var1 == TELEM_COMMAND_STOP,
        r.var2 == 0,
{
    BroadcastPayload { code: BROADCAST_TELEM_COMMAND, var1: TELEM_COMMAND_STOP, var2: 0 }
}

/// Restart telemetry recording into a fresh file.
pub fn restart() -> (r: BroadcastPayload)
    ensures
        r.code == BROADCAST_TELEM_COMMAND,
        r.var1 == TELEM_COMMAND_RESTART,
        r.var2 == 0,
{
    BroadcastPayload { code: BROADCAST_TELEM_COMMAND, var1: TELEM_COMMAND_RESTART, var2: 0 }
}

} // verus!
