//! Pit service: windshield cleaning.

use vstd::prelude::*;
use crate::commands::pit::{pit_payload, PIT_COMMAND_CLEAR_WS, PIT_COMMAND_WS};
use crate::commands::BroadcastPayload;

verus! {

/// Enable windshield cleaning.
pub fn on() -> (r: BroadcastPayload)
    ensures
        r == pit_payload(PIT_COMMAND_WS, 0),
{
    pit_payload(PIT_COMMAND_WS, 0)
}

/// Disable windshield cleaning.
pub fn off() -> (r: BroadcastPayload)
    ensures
        r == pit_payload(PIT_COMMAND_CLEAR_WS, 0),
{
    pit_payload(PIT_COMMAND_CLEAR_WS, 0)
}

} // verus!
