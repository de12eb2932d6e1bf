//! Commands to control replay playback.

use vstd::prelude::*;
use crate::commands::{BroadcastPayload, BROADCAST_REPLAY_SEARCH,
    BROADCAST_REPLAY_SEARCH_SESSION_TIME, BROADCAST_REPLAY_SET_PLAY_POSITION,
    BROADCAST_REPLAY_SET_PLAY_SPEED, BROADCAST_REPLAY_SET_STATE};

verus! {

/// Clear any data in the replay tape.
pub const RPY_STATE_ERASE_TAPE: u16 = 0;

pub const RPY_SEARCH_TO_START: u16 = 0;

pub const RPY_SEARCH_TO_END: u16 = 1;

pub const RPY_SEARCH_PREV_SESSION: u16 = 2;

pub const RPY_SEARCH_NEXT_SESSION: u16 = 3;

pub const RPY_SEARCH_PREV_LAP: u16 = 4;

pub const RPY_SEARCH_NEXT_LAP: u16 = 5;

pub const RPY_SEARCH_PREV_FRAME: u16 = 6;

pub const RPY_SEARCH_NEXT_FRAME: u16 = 7;

pub const RPY_SEARCH_PREV_INCIDENT: u16 = 8;

pub const RPY_SEARCH_NEXT_INCIDENT: u16 = 9;

pub const RPY_POS_BEGIN: u16 = 0;

pub const RPY_POS_CURRENT: u16 = 1;

pub const RPY_POS_END: u16 = 2;

/// Where a play-position offset counts from.
#[derive(Clone, Copy, Debug, PartialEq, Eq, Structural)]
pub enum PlayPosition {
    Begin,
    Current,
    End,
}

impl PlayPosition {
    /// The position mode word.
    pub open spec fn spec_position_code(self) -> u16 {
        match self {
            PlayPosition::Begin => RPY_POS_BEGIN,
            PlayPosition::Current => RPY_POS_CURRENT,
            PlayPosition::End => RPY_POS_END,
        }
    }

    /// The position mode word.
    #[verifier::when_used_as_spec(spec_position_code)]
    pub fn position_code(self) -> (r: u16)
        ensures
            r == self.spec_position_code(),
    {
        match self {
            PlayPosition::Begin => RPY_POS_BEGIN,
            PlayPosition::Current => RPY_POS_CURRENT,
            PlayPosition::End => RPY_POS_END,
        }
    }
}

/// Control play speed: zero pauses; a positive speed plays forward and a
/// negative one rewinds, as a multiplier, or as a divider when slow
/// motion is on.  The speed travels in the low half-word as its 16-bit
/// two's complement.
pub fn play_with_speed(speed: i8, slow_motion: bool) -> (r: BroadcastPayload)
    ensures
        r.code == BROADCAST_REPLAY_SET_PLAY_SPEED,
        r.var1 == (if speed >= 0 {
            speed as int
        } else {
            0x10000 + speed
        }),
        r.var2 == (if slow_motion {
            1int
        } else {
            0int
        }),
{
    let var1: u16 = if speed >= 0 {
        speed as u16
    } else {
        (0x10000i32 + speed as i32) as u16
    };
    let var2: i64 = if slow_motion {
        1
    } else {
        0
    };
    BroadcastPayload { code: BROADCAST_REPLAY_SET_PLAY_SPEED, var1, var2 }
}

/// Play the replay at normal speed.
pub fn play() -> (r: BroadcastPayload)
    ensures
        r.code == BROADCAST_REPLAY_SET_PLAY_SPEED,
        r.var1 == 1,
        r.var2 == 0,
{
    play_with_speed(1, false)
}

/// Rewind the replay at normal speed.
pub fn rewind() -> (r: BroadcastPayload)
    ensures
        r.code == BROADCAST_REPLAY_SET_PLAY_SPEED,
        r.var1 == 0xFFFF,
        r.var2 == 0,
{
    play_with_speed(-1, false)
}

/// Pause the replay.
pub fn pause() -> (r: BroadcastPayload)
    ensures
        r.code == BROADCAST_REPLAY_SET_PLAY_SPEED,
        r.var1 == 0,
        r.var2 == 0,
{
    play_with_speed(0, false)
}

/// Fast-forward the replay at the given speed, 1 to 16.
pub fn fast_forward(speed: u8) -> (r: BroadcastPayload)
    requires
        1 <= speed <= 16,
    ensures
        r.code == BROADCAST_REPLAY_SET_PLAY_SPEED,
        r.var1 == speed,
        r.var2 == 0,
{
    play_with_speed(speed as i8, false)
}

/// Rewind the replay fast at the given speed, 1 to 16.
pub fn fast_rewind(speed: u8) -> (r: BroadcastPayload)
    requires
        1 <= speed <= 16,
    ensures
        r.code == BROADCAST_REPLAY_SET_PLAY_SPEED,
        r.var1 == 0x10000 - speed,
        r.var2 == 0,
{
    play_with_speed(-(speed as i8), false)
}

/// Play the replay slowly at the given speed divider, 1 to 16.
pub fn slow_forward(speed: u8) -> (r: BroadcastPayload)
    requires
        1 <= speed <= 16,
    ensures
        r.code == BROADCAST_REPLAY_SET_PLAY_SPEED,
        r.var1 == speed,
        r.var2 == 1,
{
    play_with_speed(speed as i8, true)
}

/// Rewind the replay slowly at the given speed divider, 1 to 16.
pub fn slow_rewind(speed: u8) -> (r: BroadcastPayload)
    requires
        1 <= speed <= 16,
    ensures
        r.code == BROADCAST_REPLAY_SET_PLAY_SPEED,
        r.var1 == 0x10000 - speed,
        r.var2 == 1,
{
    play_with_speed(-(speed as i8), true)
}

/// Search for a time in milliseconds within the given session.
pub fn search_session_time(session: u16, millis: i32) -> (r: BroadcastPayload)
    ensures
        r.code == BROADCAST_REPLAY_SEARCH_SESSION_TIME,
        r.var1 == session,
        r.var2 == millis,
{
    BroadcastPayload {
        code: BROADCAST_REPLAY_SEARCH_SESSION_TIME,
        var1: session,
        var2: millis as i64,
    }
}

/// Clear the replay tape.
pub fn clear_replay_tape() -> (r: BroadcastPayload)
    ensures
        r.code == BROADCAST_REPLAY_SET_STATE,
        r.var1 == RPY_STATE_ERASE_TAPE,
        r.var2 == 0,
{
    BroadcastPayload { code: BROADCAST_REPLAY_SET_STATE, var1: RPY_STATE_ERASE_TAPE, var2: 0 }
}

/// Jump to a frame counted from the given position.
pub fn set_play_position(from: PlayPosition, frames_offset: i32) -> (r: BroadcastPayload)
    ensures
        r.code == BROADCAST_REPLAY_SET_PLAY_POSITION,
        r.var1 == from.spec_position_code(),
        r.var2 == frames_offset,
{
    BroadcastPayload {
        code: BROADCAST_REPLAY_SET_PLAY_POSITION,
        var1: from.position_code(),
        var2: frames_offset as i64,
    }
}

/// One replay search payload.
pub open spec fn spec_search_payload(mode: u16) -> BroadcastPayload {
    BroadcastPayload { code: BROADCAST_REPLAY_SEARCH, var1: mode, var2: 0 }
}

/// One replay search payload.
#[verifier::when_used_as_spec(spec_search_payload)]
pub fn search_payload(mode: u16) -> (r: BroadcastPayload)
    ensures
        r == spec_search_payload(mode),
{
    BroadcastPayload { code: BROADCAST_REPLAY_SEARCH, var1: mode, var2: 0 }
}

/// Jump to the start of the replay tape.
pub fn search_to_start() -> (r: BroadcastPayload)
    ensures
        r == search_payload(RPY_SEARCH_TO_START),
{
    search_payload(RPY_SEARCH_TO_START)
}

/// Jump to the end of the replay tape.
pub fn search_to_end() -> (r: BroadcastPayload)
    ensures
        r == search_payload(RPY_SEARCH_TO_END),
{
    search_payload(RPY_SEARCH_TO_END)
}

/// Jump to the previous session on the tape.
pub fn search_prev_session() -> (r: BroadcastPayload)
    ensures
        r == search_payload(RPY_SEARCH_PREV_SESSION),
{
    search_payload(RPY_SEARCH_PREV_SESSION)
}

/// Jump to the next session on the tape.
pub fn search_next_session() -> (r: BroadcastPayload)
    ensures
        r == search_payload(RPY_SEARCH_NEXT_SESSION),
{
    search_payload(RPY_SEARCH_NEXT_SESSION)
}

/// Jump to the previous lap.
pub fn search_prev_lap() -> (r: BroadcastPayload)
    ensures
        r == search_payload(RPY_SEARCH_PREV_LAP),
{
    search_payload(RPY_SEARCH_PREV_LAP)
}

/// Jump to the next lap.
pub fn search_next_lap() -> (r: BroadcastPayload)
    ensures
        r == search_payload(RPY_SEARCH_NEXT_LAP),
{
    search_payload(RPY_SEARCH_NEXT_LAP)
}

/// Step one frame back.
pub fn search_prev_frame() -> (r: BroadcastPayload)
    ensures
        r == search_payload(RPY_SEARCH_PREV_FRAME),
{
    search_payload(RPY_SEARCH_PREV_FRAME)
}

/// Step one frame forward.
pub fn search_next_frame() -> (r: BroadcastPayload)
    ensures
        r == search_payload(RPY_SEARCH_NEXT_FRAME),
{
    search_payload(RPY_SEARCH_NEXT_FRAME)
}

/// Jump to the previous incident.
pub fn search_prev_incident() -> (r: BroadcastPayload)
    ensures
        r == search_payload(RPY_SEARCH_PREV_INCIDENT),
{
    search_payload(RPY_SEARCH_PREV_INCIDENT)
}

/// Jump to the next incident.
pub fn search_next_incident() -> (r: BroadcastPayload)
    ensures
        r == search_payload(RPY_SEARCH_NEXT_INCIDENT),
{
    search_payload(RPY_SEARCH_NEXT_INCIDENT)
}

} // verus!
