//! A borrowed view over one row, for decoding without taking ownership.

use vstd::prelude::*;
use crate::header::Header;
use crate::schema::{spec_lookup, VarHeader, VarTable};
use crate::value::{parse_from_raw, spec_parse_from_raw, VarData};

verus! {

/// One row together with the header and table it was produced under, all
/// borrowed from their owner.
pub struct DataPoint<'a> {
    pub vars: &'a VarTable,
    pub header: &'a Header,
    pub raw_data: &'a [u8],
}

impl<'a> DataPoint<'a> {
    /// Decode the first element of a variable from the row.
    pub fn read<T: VarData>(&self, var: &VarHeader) -> (r: Option<T>)
        ensures
            r == spec_parse_from_raw::<T>(0, *var, self.raw_data@),
    {
        self.read_at(0, var)
    }

    /// Decode element `idx` of a variable from the row.
    pub fn read_at<T: VarData>(&self, idx: usize, var: &VarHeader) -> (r: Option<T>)
        ensures
            r == spec_parse_from_raw::<T>(idx as int, *var, self.raw_data@),
    {
        parse_from_raw::<T>(idx, var, self.raw_data)
    }

    /// Decode the first element of the variable with the given name.
    pub fn read_name<T: VarData>(&self, name: &str) -> (r: Option<T>)
        ensures
            r == match spec_lookup(self.vars@, name@) {
                Some(h) => spec_parse_from_raw::<T>(0, h, self.raw_data@),
                None => None::<T>,
            },
    {
        self.read_name_at(name, 0)
    }

    /// Decode element `idx` of the variable with the given name.
    pub fn read_name_at<T: VarData>(&self, name: &str, idx: usize) -> (r: Option<T>)
        ensures
            r == match spec_lookup(self.vars@, name@) {
                Some(h) => spec_parse_from_raw::<T>(idx as int, h, self.raw_data@),
                None => None::<T>,
            },
    {
        match self.vars.get(name) {
            Some(var) => self.read_at(idx, var),
            None => None,
        }
    }
}

} // verus!
