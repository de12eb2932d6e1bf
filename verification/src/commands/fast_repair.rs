//! Pit service: fast repair.

use vstd::prelude::*;
use crate::commands::pit::{pit_payload, PIT_COMMAND_CLEAR_FR, PIT_COMMAND_FR};
use crate::commands::BroadcastPayload;

verus! {

/// Enable the fast repair.
pub fn on() -> (r: BroadcastPayload)
    ensures
        r == pit_payload(PIT_COMMAND_FR, 0),
{
    pit_payload(PIT_COMMAND_FR, 0)
}

/// Disable the fast repair.
pub fn off() -> (r: BroadcastPayload)
    ensures
        r == pit_payload(PIT_COMMAND_CLEAR_FR, 0),
{
    pit_payload(PIT_COMMAND_CLEAR_FR, 0)
}

} // verus!
