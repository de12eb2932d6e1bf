//! Pit service: tire changes.

use vstd::prelude::*;
use crate::commands::pit::{pit_payload, PIT_COMMAND_CLEAR_TIRES, PIT_COMMAND_LF, PIT_COMMAND_LR,
    PIT_COMMAND_RF, PIT_COMMAND_RR};
use crate::commands::BroadcastPayload;

verus! {

/// One of the four tire positions.
#[derive(Clone, Copy, Debug, PartialEq, Eq, Structural)]
pub enum TireCorner {
    LeftFront,
    RightFront,
    LeftRear,
    RightRear,
}

impl TireCorner {
    /// The pit subcode that changes this tire.
    pub open spec fn spec_subcode(self) -> u16 {
        match self {
            TireCorner::LeftFront => PIT_COMMAND_LF,
            TireCorner::RightFront => PIT_COMMAND_RF,
            TireCorner::LeftRear => PIT_COMMAND_LR,
            TireCorner::RightRear => PIT_COMMAND_RR,
        }
    }

    /// The pit subcode that changes this tire.
    #[verifier::when_used_as_spec(spec_subcode)]
    pub fn subcode(self) -> (r: u16)
        ensures
            r == self.spec_subcode(),
    {
        match self {
            TireCorner::LeftFront => PIT_COMMAND_LF,
            TireCorner::RightFront => PIT_COMMAND_RF,
            TireCorner::LeftRear => PIT_COMMAND_LR,
            TireCorner::RightRear => PIT_COMMAND_RR,
        }
    }
}

/// Change the given tire, keeping its existing pressure.
pub fn on(corner: TireCorner) -> (r: BroadcastPayload)
    ensures
        r == pit_payload(corner.spec_subcode(), 0),
{
    pit_payload(corner.subcode(), 0)
}

/// Change the given tire with the given pressure in kPa; the amount is
/// rounded down in the simulator to its discrete steps.
pub fn on_with_kpa(corner: TireCorner, amount: i32) -> (r: BroadcastPayload)
    requires
        amount != 0,
    ensures
        r == pit_payload(corner.spec_subcode(), amount),
{
    pit_payload(corner.subcode(), amount)
}

/// Clear all tire changes.
pub fn off() -> (r: BroadcastPayload)
    ensures
        r == pit_payload(PIT_COMMAND_CLEAR_TIRES, 0),
{
    pit_payload(PIT_COMMAND_CLEAR_TIRES, 0)
}

} // verus!
