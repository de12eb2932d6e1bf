//! Protocol-level constants.

use vstd::prelude::*;

verus! {

/// The protocol version this client implements; a region written by any
/// other version is rejected.
pub const IRSDK_VER: i32 = 2;

/// Value of the session lap limit when the session is unlimited.
pub const UNLIMITED_LAPS: i32 = 32767;

} // verus!
