//! Errors surfaced by the protocol client.
//!
//! Only a protocol-version mismatch is fatal for a connection attempt;
//! every other failure is localized to the value it concerns.

use vstd::prelude::*;

verus! {

#[derive(Clone, Copy, Debug, PartialEq, Eq, Structural)]
pub enum TelemetryError {
    /// The region was written by an incompatible protocol version.
    VersionMismatch { expected: i32, found: i32 },
    /// A variable descriptor carries an unknown type tag.
    InvalidVarType { raw: i32 },
    /// A variable descriptor carries a negative offset or element count.
    InvalidDescriptor,
    /// The session-info blob was empty or malformed.
    SessionInfoUnavailable,
    /// The region or capture file is too short for the structure it claims.
    TruncatedRegion,
}

impl TelemetryError {
    /// A short human-readable name for the error.
    pub fn describe(&self) -> (r: &'static str)
        ensures
            r@ == match self {
                TelemetryError::VersionMismatch { .. } => "protocol version mismatch"@,
                TelemetryError::InvalidVarType { .. } => "invalid variable type tag"@,
                TelemetryError::InvalidDescriptor => "invalid variable descriptor"@,
                TelemetryError::SessionInfoUnavailable => "session info empty or malformed"@,
                TelemetryError::TruncatedRegion => "region or file too short"@,
            },
    {
        match self {
            TelemetryError::VersionMismatch { .. } => "protocol version mismatch",
            TelemetryError::InvalidVarType { .. } => "invalid variable type tag",
            TelemetryError::InvalidDescriptor => "invalid variable descriptor",
            TelemetryError::SessionInfoUnavailable => "session info empty or malformed",
            TelemetryError::TruncatedRegion => "region or file too short",
        }
    }
}

} // verus!
