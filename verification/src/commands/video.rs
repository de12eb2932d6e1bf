//! Commands to control video capture.

use vstd::prelude::*;
use crate::commands::{BroadcastPayload, BROADCAST_VIDEO_CAPTURE};

verus! {

pub const VIDEO_CAPTURE_TRIGGER_SCREEN_SHOT: u16 = 0;

pub const VIDEO_CAPTURE_START_VIDEO_CAPTURE: u16 = 1;

pub const VIDEO_CAPTURE_END_VIDEO_CAPTURE: u16 = 2;

pub const VIDEO_CAPTURE_TOGGLE_VIDEO_CAPTURE: u16 = 3;

pub const VIDEO_CAPTURE_SHOW_VIDEO_TIMER: u16 = 4;

pub const VIDEO_CAPTURE_HIDE_VIDEO_TIMER: u16 = 5;

/// One video-capture command payload.
pub open spec fn spec_video_payload(subcode: u16) -> BroadcastPayload {
    BroadcastPayload { code: BROADCAST_VIDEO_CAPTURE, var1: subcode, var2: 0 }
}

/// One video-capture command payload.
#[verifier::when_used_as_spec(spec_video_payload)]
pub fn video_payload(subcode: u16) -> (r: BroadcastPayload)
    ensures
        r == spec_video_payload(subcode),
{
    BroadcastPayload { code: BROADCAST_VIDEO_CAPTURE, var1: subcode, var2: 0 }
}

/// Save a screenshot to disk.
pub fn trigger_screen_shot() -> (r: BroadcastPayload)
    ensures
        r == video_payload(VIDEO_CAPTURE_TRIGGER_SCREEN_SHOT),
{
    video_payload(VIDEO_CAPTURE_TRIGGER_SCREEN_SHOT)
}

/// Start capturing video.
pub fn start_video_capture() -> (r: BroadcastPayload)
    ensures
        r == video_payload(VIDEO_CAPTURE_START_VIDEO_CAPTURE),
{
    video_payload(VIDEO_CAPTURE_START_VIDEO_CAPTURE)
}

/// Stop capturing video.
pub fn end_video_capture() -> (r: BroadcastPayload)
    ensures
        r == video_payload(VIDEO_CAPTURE_END_VIDEO_CAPTURE),
{
    video_payload(VIDEO_CAPTURE_END_VIDEO_CAPTURE)
}

/// Toggle video capture on or off.
pub fn toggle_video_capture() -> (r: BroadcastPayload)
    ensures
        r == video_payload(VIDEO_CAPTURE_TOGGLE_VIDEO_CAPTURE),
{
    video_payload(VIDEO_CAPTURE_TOGGLE_VIDEO_CAPTURE)
}

/// Show the video timer in the upper corner of the display.
pub fn show_video_timer() -> (r: BroadcastPayload)
    ensures
        r == video_payload(VIDEO_CAPTURE_SHOW_VIDEO_TIMER),
{
    video_payload(VIDEO_CAPTURE_SHOW_VIDEO_TIMER)
}

/// Hide the video timer.
pub fn hide_video_timer() -> (r: BroadcastPayload)
    ensures
        r == video_payload(VIDEO_CAPTURE_HIDE_VIDEO_TIMER),
{
    video_payload(VIDEO_CAPTURE_HIDE_VIDEO_TIMER)
}

} // verus!
