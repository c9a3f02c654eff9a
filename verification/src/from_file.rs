//! The shared shape of backend descriptors: anything built from one
//! evaluated descriptor file, with a probe binary name.

use vstd::prelude::*;
use crate::errors::Error;
use crate::errors::ErrorV;
use crate::script::ScriptValueV;
use crate::script::ScriptValues;

verus! {

/// A record that can be built from the named values of one evaluated
/// descriptor file, and that names the binary whose presence identifies its
/// backend on a host.
pub trait FromFile: Sized + View {
    /// The record this set of values denotes, or the error its extraction
    /// surfaces.
    spec fn spec_from_values(values: Seq<(Seq<char>, ScriptValueV)>) -> Result<Self::V, ErrorV>;

    /// The probe binary name of a record.
    spec fn spec_binary_name(v: Self::V) -> Seq<char>;

    /// Build the record from the values one descriptor file evaluated to.
    fn from_values(values: &ScriptValues) -> (r: Result<Self, Error>)
        ensures
            (match r {
                Result::Ok(d) => Self::spec_from_values(values@) matches Ok(dv) && d@ == dv,
                Result::Err(e) => Self::spec_from_values(values@) matches Err(ev) && e@ == ev,
            }),
    ;

    /// The record's probe binary name.
    fn get_binary_name(&self) -> (r: &str)
        ensures
            r@ == Self::spec_binary_name(self@),
    ;
}

} // verus!
