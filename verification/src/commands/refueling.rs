//! Pit service: refueling.

use vstd::prelude::*;
use crate::commands::pit::{pit_payload, PIT_COMMAND_CLEAR_FUEL, PIT_COMMAND_FUEL};
use crate::commands::BroadcastPayload;

verus! {

/// Turn refueling on without changing the amount.
pub fn on() -> (r: BroadcastPayload)
    ensures
        r == pit_payload(PIT_COMMAND_FUEL, 0),
{
    pit_payload(PIT_COMMAND_FUEL, 0)
}

/// Turn refueling off.
pub fn off() -> (r: BroadcastPayload)
    ensures
        r == pit_payload(PIT_COMMAND_CLEAR_FUEL, 0),
{
    pit_payload(PIT_COMMAND_CLEAR_FUEL, 0)
}

/// Set the amount to refuel in liters and enable refueling.
pub fn on_with_liters(amount: i32) -> (r: BroadcastPayload)
    requires
        amount != 0,
    ensures
        r == pit_payload(PIT_COMMAND_FUEL, amount),
{
    pit_payload(PIT_COMMAND_FUEL, amount)
}

} // verus!
