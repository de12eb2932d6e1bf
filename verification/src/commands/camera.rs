//! Commands to control the camera.

use vstd::prelude::*;
use crate::commands::{BroadcastPayload, BROADCAST_CAM_SET_STATE, BROADCAST_CAM_SWITCH_NUM,
    BROADCAST_CAM_SWITCH_POS, make_long};

verus! {

/// The camera system's state bits, as sent with the set-state command.
#[derive(Clone, Copy, Debug, PartialEq, Eq, Structural)]
pub struct CameraState(pub u16);

/// State bit: the session screen is up.
pub const CAMERA_IS_SESSION_SCREEN: u16 = 0x0001;

/// State bit: the scenic camera is active.
pub const CAMERA_IS_SCENIC_ACTIVE: u16 = 0x0002;

/// State bit: the camera tool is active; settable.
pub const CAMERA_TOOL_ACTIVE: u16 = 0x0004;

/// State bit: the UI is hidden; settable.
pub const CAMERA_UI_HIDDEN: u16 = 0x0008;

/// State bit: use automatic shot selection; settable.
pub const CAMERA_USE_AUTO_SHOT_SELECTION: u16 = 0x0010;

/// State bit: use temporary edits; settable.
pub const CAMERA_USE_TEMPORARY_EDITS: u16 = 0x0020;

/// State bit: use key acceleration; settable.
pub const CAMERA_USE_KEY_ACCELERATION: u16 = 0x0040;

/// State bit: use ten-fold key acceleration; settable.
pub const CAMERA_USE_KEY10X_ACCELERATION: u16 = 0x0080;

/// State bit: use mouse-aim mode; settable.
pub const CAMERA_USE_MOUSE_AIM_MODE: u16 = 0x0100;

/// Switch to a car position and camera group.
///
/// A car position of zero only changes the group.
pub fn switch_to_position(car_position: u16, group: u16, camera: u16) -> (r: BroadcastPayload)
    ensures
        r.code == BROADCAST_CAM_SWITCH_POS,
        r.var1 == car_position,
        r.var2 == group + camera * 0x10000,
{
    BroadcastPayload {
        code: BROADCAST_CAM_SWITCH_POS,
        var1: car_position,
        var2: make_long(group, camera) as i64,
    }
}

/// Switch to a car number and camera group.
pub fn switch_to_car_number(car_number: u16, group: u16, camera: u16) -> (r: BroadcastPayload)
    ensures
        r.code == BROADCAST_CAM_SWITCH_NUM,
        r.var1 == car_number,
        r.var2 == group + camera * 0x10000,
{
    BroadcastPayload {
        code: BROADCAST_CAM_SWITCH_NUM,
        var1: car_number,
        var2: make_long(group, camera) as i64,
    }
}

/// Set the state of the camera system.
pub fn set_state(camera_state: CameraState) -> (r: BroadcastPayload)
    ensures
        r.code == BROADCAST_CAM_SET_STATE,
        r.var1 == camera_state.0,
        r.var2 == 0,
{
    BroadcastPayload { code: BROADCAST_CAM_SET_STATE, var1: camera_state.0, var2: 0 }
}

} // verus!
