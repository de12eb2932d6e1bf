//! An untyped 32-bit flag word read from a bit-field variable.

use vstd::prelude::*;
use crate::schema::VarType;
use crate::value::VarData;

verus! {

/// The raw bits of a bit-field variable, for callers that test flags
/// themselves.
#[derive(Clone, Copy, Debug, PartialEq, Eq, Structural)]
pub struct BitField(pub u32);

impl VarData for BitField {
    /// A 32-bit bit field, kept as its raw word.
    open spec fn spec_parse(var_type: VarType, data: Seq<u8>) -> Option<BitField> {
        match u32::spec_parse(var_type, data) {
            Some(v) => Some(BitField(v)),
            None => None,
        }
    }

    fn parse(var_type: VarType, data: &[u8]) -> (r: Option<BitField>)
        ensures
            r == Self::spec_parse(var_type, data@),
    {
        match u32::parse(var_type, data) {
            Some(v) => Some(BitField(v)),
            None => None,
        }
    }
}

} // verus!
