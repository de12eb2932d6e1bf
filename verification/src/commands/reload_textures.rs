//! Commands to reload car textures.

use vstd::prelude::*;
use crate::commands::{BroadcastPayload, BROADCAST_RELOAD_TEXTURES, make_long};

verus! {

pub const RELOAD_TEXTURES_ALL: u16 = 0;

pub const RELOAD_TEXTURES_CAR_IDX: u16 = 1;

/// Reload the textures of all cars.
pub fn all() -> (r: BroadcastPayload)
    ensures
        r.code == BROADCAST_RELOAD_TEXTURES,
        r.var1 == RELOAD_TEXTURES_ALL,
        r.var2 == 0,
{
    BroadcastPayload { code: BROADCAST_RELOAD_TEXTURES, var1: RELOAD_TEXTURES_ALL, var2: 0 }
}

/// Reload only the textures of the car with the given index.
pub fn car(car_idx: u16) -> (r: BroadcastPayload)
    ensures
        r.code == BROADCAST_RELOAD_TEXTURES,
        r.var1 == RELOAD_TEXTURES_CAR_IDX,
        r.var2 == car_idx,
{
    BroadcastPayload {
        code: BROADCAST_RELOAD_TEXTURES,
        var1: RELOAD_TEXTURES_CAR_IDX,
        var2: make_long(car_idx, 0) as i64,
    }
}

} // verus!
