//! Commands to control pit service.

use vstd::prelude::*;
use crate::commands::{BroadcastPayload, BROADCAST_PIT_COMMAND};

verus! {

pub const PIT_COMMAND_CLEAR: u16 = 0;

pub const PIT_COMMAND_WS: u16 = 1;

pub const PIT_COMMAND_FUEL: u16 = 2;

pub const PIT_COMMAND_LF: u16 = 3;

pub const PIT_COMMAND_RF: u16 = 4;

pub const PIT_COMMAND_LR: u16 = 5;

pub const PIT_COMMAND_RR: u16 = 6;

pub const PIT_COMMAND_CLEAR_TIRES: u16 = 7;

pub const PIT_COMMAND_FR: u16 = 8;

pub const PIT_COMMAND_CLEAR_WS: u16 = 9;

pub const PIT_COMMAND_CLEAR_FR: u16 = 10;

pub const PIT_COMMAND_CLEAR_FUEL: u16 = 11;

/// One pit command payload.
pub open spec fn spec_pit_payload(subcode: u16, amount: i32) -> BroadcastPayload {
    BroadcastPayload { code: BROADCAST_PIT_COMMAND, var1: subcode, var2: amount as i64 }
}

/// One pit command payload.
#[verifier::when_used_as_spec(spec_pit_payload)]
pub fn pit_payload(subcode: u16, amount: i32) -> (r: BroadcastPayload)
    ensures
        r == spec_pit_payload(subcode, amount),
{
    BroadcastPayload { code: BROADCAST_PIT_COMMAND, var1: subcode, var2: amount as i64 }
}

/// Clear all pit checkboxes.
pub fn clear() -> (r: BroadcastPayload)
    ensures
        r == pit_payload(PIT_COMMAND_CLEAR, 0),
{
    pit_payload(PIT_COMMAND_CLEAR, 0)
}

/// Turn every pit command off.
pub fn all_off() -> (r: BroadcastPayload)
    ensures
        r == pit_payload(PIT_COMMAND_CLEAR, 0),
{
    pit_payload(PIT_COMMAND_CLEAR, 0)
}

/// Clean the windshield, using one tear-off.
pub fn ws() -> (r: BroadcastPayload)
    ensures
        r == pit_payload(PIT_COMMAND_WS, 0),
{
    pit_payload(PIT_COMMAND_WS, 0)
}

/// Add fuel: the amount to add in liters, or zero to use the existing
/// amount.
pub fn fuel(liters: i32) -> (r: BroadcastPayload)
    ensures
        r == pit_payload(PIT_COMMAND_FUEL, liters),
{
    pit_payload(PIT_COMMAND_FUEL, liters)
}

/// Change the left front tire: the pressure in kPa, or zero to use the
/// existing pressure.
pub fn lf(pressure: i32) -> (r: BroadcastPayload)
    ensures
        r == pit_payload(PIT_COMMAND_LF, pressure),
{
    pit_payload(PIT_COMMAND_LF, pressure)
}

/// Change the right front tire: the pressure in kPa, or zero to use the
/// existing pressure.
pub fn rf(pressure: i32) -> (r: BroadcastPayload)
    ensures
        r == pit_payload(PIT_COMMAND_RF, pressure),
{
    pit_payload(PIT_COMMAND_RF, pressure)
}

/// Change the left rear tire: the pressure in kPa, or zero to use the
/// existing pressure.
pub fn lr(pressure: i32) -> (r: BroadcastPayload)
    ensures
        r == pit_payload(PIT_COMMAND_LR, pressure),
{
    pit_payload(PIT_COMMAND_LR, pressure)
}

/// Change the right rear tire: the pressure in kPa, or zero to use the
/// existing pressure.
pub fn rr(pressure: i32) -> (r: BroadcastPayload)
    ensures
        r == pit_payload(PIT_COMMAND_RR, pressure),
{
    pit_payload(PIT_COMMAND_RR, pressure)
}

/// Clear all tire pit checkboxes.
pub fn clear_tires() -> (r: BroadcastPayload)
    ensures
        r == pit_payload(PIT_COMMAND_CLEAR_TIRES, 0),
{
    pit_payload(PIT_COMMAND_CLEAR_TIRES, 0)
}

/// Request a fast repair.
pub fn fr() -> (r: BroadcastPayload)
    ensures
        r == pit_payload(PIT_COMMAND_FR, 0),
{
    pit_payload(PIT_COMMAND_FR, 0)
}

/// Uncheck cleaning the windshield.
pub fn clear_ws() -> (r: BroadcastPayload)
    ensures
        r == pit_payload(PIT_COMMAND_CLEAR_WS, 0),
{
    pit_payload(PIT_COMMAND_CLEAR_WS, 0)
}

/// Uncheck the fast repair request.
pub fn clear_fr() -> (r: BroadcastPayload)
    ensures
        r == pit_payload(PIT_COMMAND_CLEAR_FR, 0),
{
    pit_payload(PIT_COMMAND_CLEAR_FR, 0)
}

/// Uncheck adding fuel.
pub fn clear_fuel() -> (r: BroadcastPayload)
    ensures
        r == pit_payload(PIT_COMMAND_CLEAR_FUEL, 0),
{
    pit_payload(PIT_COMMAND_CLEAR_FUEL, 0)
}

} // verus!
