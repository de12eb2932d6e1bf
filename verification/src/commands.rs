//! Encoding of outbound control commands.
//!
//! Each logical command maps to a numeric command code plus up to two
//! packed parameter words, delivered to the simulator over the system's
//! broadcast message channel.  This module encodes the payloads exactly;
//! the platform layer registers the message identifier and performs the
//! fire-and-forget send, which carries no acknowledgement and no failure
//! signal.

use vstd::prelude::*;

verus! {

pub const BROADCAST_CAM_SWITCH_POS: u16 = 0;

pub const BROADCAST_CAM_SWITCH_NUM: u16 = 1;

pub const BROADCAST_CAM_SET_STATE: u16 = 2;

pub const BROADCAST_REPLAY_SET_PLAY_SPEED: u16 = 3;

pub const BROADCAST_REPLAY_SET_PLAY_POSITION: u16 = 4;

pub const BROADCAST_REPLAY_SEARCH: u16 = 5;

pub const BROADCAST_REPLAY_SET_STATE: u16 = 6;

pub const BROADCAST_RELOAD_TEXTURES: u16 = 7;

pub const BROADCAST_CHAT_COMMAND: u16 = 8;

pub const BROADCAST_PIT_COMMAND: u16 = 9;

pub const BROADCAST_TELEM_COMMAND: u16 = 10;

pub const BROADCAST_FFB_COMMAND: u16 = 11;

pub const BROADCAST_REPLAY_SEARCH_SESSION_TIME: u16 = 12;

pub const BROADCAST_VIDEO_CAPTURE: u16 = 13;

/// Two 16-bit halves packed into one 32-bit word, low half first.
pub fn make_long(low: u16, high: u16) -> (r: u32)
    ensures
        r == low + high * 0x10000,
{
    low as u32 + high as u32 * 0x10000
}

/// One encoded broadcast command: the command code, the first parameter
/// half-word that is packed beside it, and the second parameter word.
#[derive(Clone, Copy, Debug, PartialEq, Eq, Structural)]
pub struct BroadcastPayload {
    pub code: u16,
    pub var1: u16,
    pub var2: i64,
}

impl BroadcastPayload {
    /// The two machine words of the broadcast message: the code and the
    /// first parameter packed into one word, and the second parameter.
    pub fn message_words(&self) -> (r: (u32, i64))
        ensures
            r.0 == self.code + self.var1 * 0x10000,
            r.1 == self.var2,
    {
        (make_long(self.code, self.var1), self.var2)
    }
}

} // verus!

pub mod camera;
pub mod chat;
pub mod clean_windshield;
pub mod fast_repair;
pub mod force_feedback;
pub mod pit;
pub mod refueling;
pub mod reload_textures;
pub mod replay;
pub mod telemetry;
pub mod tires;
pub mod video;
