//! Whole commands as data, for callers that build a command first and
//! encode it later.

use vstd::prelude::*;
use crate::commands::{BroadcastPayload, BROADCAST_PIT_COMMAND, BROADCAST_RELOAD_TEXTURES};

verus! {

/// Which cars a texture reload applies to.
#[derive(Clone, Copy, Debug, PartialEq, Eq, Structural)]
pub enum ReloadTexturesMode {
    /// Reload textures on all cars.
    All,
    /// Reload textures on the car with the given index.
    CarIdx(u16),
}

impl ReloadTexturesMode {
    /// The encoded texture-reload command.
    pub fn payload(&self) -> (r: BroadcastPayload)
        ensures
            r.code == BROADCAST_RELOAD_TEXTURES,
            r.var1 == (if self is All {
                0int
            } else {
                1int
            }),
            r.var2 == (match self {
                ReloadTexturesMode::All => 0int,
                ReloadTexturesMode::CarIdx(idx) => idx as int,
            }),
    {
        match self {
            ReloadTexturesMode::All => {
                BroadcastPayload { code: BROADCAST_RELOAD_TEXTURES, var1: 0, var2: 0 }
            },
            ReloadTexturesMode::CarIdx(idx) => {
                BroadcastPayload { code: BROADCAST_RELOAD_TEXTURES, var1: 1, var2: *idx as i64 }
            },
        }
    }
}

/// One element of the pit strategy to change.  An amount of `None` keeps
/// the existing value.
#[derive(Clone, Copy, Debug, PartialEq, Eq, Structural)]
pub enum PitCommand {
    /// Clear all pit checkboxes.
    Clear,
    /// Clean the windshield, using one tear-off.
    Windshield,
    /// Add fuel, in liters.
    Fuel(Option<i32>),
    /// Change the left front tire, with a pressure in kPa.
    LeftFront(Option<i32>),
    /// Change the right front tire, with a pressure in kPa.
    RightFront(Option<i32>),
    /// Change the left rear tire, with a pressure in kPa.
    LeftRear(Option<i32>),
    /// Change the right rear tire, with a pressure in kPa.
    RightRear(Option<i32>),
    /// Do not change any tires.
    ClearTires,
    /// Request a fast repair.
    FastRepair,
    /// Uncheck cleaning the windshield.
    ClearWindshield,
    /// Uncheck the fast repair request.
    ClearFastRepair,
    /// Uncheck adding fuel.
    ClearFuel,
}

impl PitCommand {
    /// The pit subcode of this command.
    pub open spec fn spec_message_code(&self) -> u16 {
        match self {
            PitCommand::Clear => 0,
            PitCommand::Windshield => 1,
            PitCommand::Fuel(_) => 2,
            PitCommand::LeftFront(_) => 3,
            PitCommand::RightFront(_) => 4,
            PitCommand::LeftRear(_) => 5,
            PitCommand::RightRear(_) => 6,
            PitCommand::ClearTires => 7,
            PitCommand::FastRepair => 8,
            PitCommand::ClearWindshield => 9,
            PitCommand::ClearFastRepair => 10,
            PitCommand::ClearFuel => 11,
        }
    }

    /// The amount word the command carries; a kept amount travels as
    /// zero.
    pub open spec fn spec_amount(&self) -> i32 {
        match self {
            PitCommand::Fuel(Some(v)) => *v,
            PitCommand::LeftFront(Some(v)) => *v,
            PitCommand::RightFront(Some(v)) => *v,
            PitCommand::LeftRear(Some(v)) => *v,
            PitCommand::RightRear(Some(v)) => *v,
            _ => 0,
        }
    }

    /// The pit subcode of this command.
    #[verifier::when_used_as_spec(spec_message_code)]
    pub fn message_code(&self) -> (r: u16)
        ensures
            r == self.spec_message_code(),
    {
        match self {
            PitCommand::Clear => 0,
            PitCommand::Windshield => 1,
            PitCommand::Fuel(_) => 2,
            PitCommand::LeftFront(_) => 3,
            PitCommand::RightFront(_) => 4,
            PitCommand::LeftRear(_) => 5,
            PitCommand::RightRear(_) => 6,
            PitCommand::ClearTires => 7,
            PitCommand::FastRepair => 8,
            PitCommand::ClearWindshield => 9,
            PitCommand::ClearFastRepair => 10,
            PitCommand::ClearFuel => 11,
        }
    }

    /// The encoded pit command.
    pub fn broadcast_params(&self) -> (r: BroadcastPayload)
        ensures
            r.code == BROADCAST_PIT_COMMAND,
            r.var1 == self.spec_message_code(),
            r.var2 == self.spec_amount(),
    {
        let amount: i32 = match self {
            PitCommand::Fuel(Some(v)) => *v,
            PitCommand::LeftFront(Some(v)) => *v,
            PitCommand::RightFront(Some(v)) => *v,
            PitCommand::LeftRear(Some(v)) => *v,
            PitCommand::RightRear(Some(v)) => *v,
            _ => 0,
        };
        BroadcastPayload {
            code: BROADCAST_PIT_COMMAND,
            var1: self.message_code(),
            var2: amount as i64,
        }
    }
}

} // verus!
