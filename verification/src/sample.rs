//! One delivered telemetry sample.
//!
//! A sample bundles the header snapshot, the variable table of the schema
//! generation the row was produced under, the row itself, and the shared
//! session-info document.  Table and row are captured together in one
//! construction step, so a descriptor can never be applied to a row of
//! another generation through a sample.

use vstd::prelude::*;
use std::sync::Arc;
use yaml_rust::Yaml;
use crate::header::Header;
use crate::schema::{spec_lookup, VarHeader, VarTable};
use crate::value::{parse_from_raw, spec_parse_from_raw, VarData};

verus! {

/// An immutable, shareable snapshot of one telemetry tick.
pub struct SimState {
    header: Header,
    variables: Arc<VarTable>,
    raw_data: Vec<u8>,
    session_info: Option<Arc<Yaml>>,
}

impl SimState {
    /// The header snapshot the sample was produced under.
    pub closed spec fn spec_header(&self) -> Header {
        self.header
    }

    /// The descriptors of the sample's schema generation.
    pub closed spec fn spec_variables(&self) -> Seq<VarHeader> {
        self.variables@
    }

    /// The raw row.
    pub closed spec fn spec_raw_data(&self) -> Seq<u8> {
        self.raw_data@
    }

    /// The shared session-info document, if one was available.
    pub closed spec fn spec_session_info(&self) -> Option<Arc<Yaml>> {
        self.session_info
    }

    /// Bundle one poll's results into a sample.
    pub fn new(
        header: Header,
        variables: Arc<VarTable>,
        raw_data: Vec<u8>,
        session_info: Option<Arc<Yaml>>,
    ) -> (r: SimState)
        ensures
            r.spec_header() == header,
            r.spec_variables() == variables@,
            r.spec_raw_data() == raw_data@,
            r.spec_session_info() == session_info,
    {
        SimState { header, variables, raw_data, session_info }
    }

    /// Decode the first element of a variable from this sample's row.
    pub fn read<T: VarData>(&self, var: &VarHeader) -> (r: Option<T>)
        ensures
            r == spec_parse_from_raw::<T>(0, *var, self.spec_raw_data()),
    {
        self.read_at(0, var)
    }

    /// Decode element `idx` of a variable from this sample's row.
    pub fn read_at<T: VarData>(&self, idx: usize, var: &VarHeader) -> (r: Option<T>)
        ensures
            r == spec_parse_from_raw::<T>(idx as int, *var, self.spec_raw_data()),
    {
        parse_from_raw::<T>(idx, var, self.raw_data.as_slice())
    }

    /// Decode the first element of the variable with the given name.
    pub fn read_name<T: VarData>(&self, name: &str) -> (r: Option<T>)
        ensures
            r == match spec_lookup(self.spec_variables(), name@) {
                Some(h) => spec_parse_from_raw::<T>(0, h, self.spec_raw_data()),
                None => None::<T>,
            },
    {
        self.read_name_at(name, 0)
    }

    /// Decode element `idx` of the variable with the given name.
    pub fn read_name_at<T: VarData>(&self, name: &str, idx: usize) -> (r: Option<T>)
        ensures
            r == match spec_lookup(self.spec_variables(), name@) {
                Some(h) => spec_parse_from_raw::<T>(idx as int, h, self.spec_raw_data()),
                None => None::<T>,
            },
    {
        match self.variables.get(name) {
            Some(var) => self.read_at(idx, var),
            None => None,
        }
    }

    /// Decode every element of a variable into an owned vector.
    pub fn read_all<T: VarData>(&self, var: &VarHeader) -> (r: Option<Vec<T>>)
        ensures
            ({
                let size = var.var_type.spec_byte_count();
                let end = var.offset + var.count * size;
                match r {
                    Some(v) => end <= self.spec_raw_data().len() && v@
                        == crate::value::spec_parse_chunks::<T>(
                        var.var_type,
                        self.spec_raw_data().subrange(var.offset as int, end),
                    ),
                    None => end > self.spec_raw_data().len(),
                }
            }),
    {
        crate::value::parse_all::<T>(var, self.raw_data.as_slice())
    }

    /// The header snapshot.
    pub fn header(&self) -> (r: &Header)
        ensures
            *r == self.spec_header(),
    {
        &self.header
    }

    /// The variable table of this sample's schema generation.
    pub fn variables(&self) -> (r: &VarTable)
        ensures
            r@ == self.spec_variables(),
    {
        &self.variables
    }

    /// The raw row bytes.
    pub fn raw_data(&self) -> (r: &Vec<u8>)
        ensures
            r@ == self.spec_raw_data(),
    {
        &self.raw_data
    }

    /// The session-info document, when one was available at delivery.
    pub fn session_info(&self) -> (r: Option<&Yaml>)
        ensures
            r is Some <==> self.spec_session_info() is Some,
            r matches Some(doc) ==> (self.spec_session_info() matches Some(d) && d == doc),
    {
        match &self.session_info {
            Some(doc) => Some(&**doc),
            None => None,
        }
    }
}

} // verus!
