//! Commands to control the chat window.

use vstd::prelude::*;
use crate::commands::{BroadcastPayload, BROADCAST_CHAT_COMMAND};

verus! {

pub const CHAT_COMMAND_MACRO: u16 = 0;

pub const CHAT_COMMAND_BEGIN_CHAT: u16 = 1;

pub const CHAT_COMMAND_REPLY: u16 = 2;

pub const CHAT_COMMAND_CANCEL: u16 = 3;

/// Run one of the numbered chat macros.
pub fn run_macro(id: u8) -> (r: BroadcastPayload)
    ensures
        r.code == BROADCAST_CHAT_COMMAND,
        r.var1 == CHAT_COMMAND_MACRO,
        r.var2 == id,
{
    BroadcastPayload { code: BROADCAST_CHAT_COMMAND, var1: CHAT_COMMAND_MACRO, var2: id as i64 }
}

/// Open the chat window.
pub fn open() -> (r: BroadcastPayload)
    ensures
        r.code == BROADCAST_CHAT_COMMAND,
        r.var1 == CHAT_COMMAND_BEGIN_CHAT,
        r.var2 == 0,
{
    BroadcastPayload { code: BROADCAST_CHAT_COMMAND, var1: CHAT_COMMAND_BEGIN_CHAT, var2: 0 }
}

/// Close the chat window.
pub fn close() -> (r: BroadcastPayload)
    ensures
        r.code == BROADCAST_CHAT_COMMAND,
        r.var1 == CHAT_COMMAND_CANCEL,
        r.var2 == 0,
{
    BroadcastPayload { code: BROADCAST_CHAT_COMMAND, var1: CHAT_COMMAND_CANCEL, var2: 0 }
}

/// Reply to the last private chat.
pub fn reply() -> (r: BroadcastPayload)
    ensures
        r.code == BROADCAST_CHAT_COMMAND,
        r.var1 == CHAT_COMMAND_REPLY,
        r.var2 == 0,
{
    BroadcastPayload { code: BROADCAST_CHAT_COMMAND, var1: CHAT_COMMAND_REPLY, var2: 0 }
}

} // verus!
