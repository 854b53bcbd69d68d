//! The caller-facing handle created when an instrumented operation starts.
//!
//! `ScopedInstrumenter::new` applies the classification policy: it returns
//! nothing for an excluded operation, and otherwise a handle carrying the
//! operation's kind string and properties. The caller pairs the handle with
//! a start timestamp and, when the operation's scope ends, hands the kind,
//! the properties and the elapsed nanoseconds to the registry.

use vstd::prelude::*;

use crate::isa::Instruction;
use crate::policy::is_denied;
use crate::policy::keep_props;
use crate::policy::kind_name;
use crate::policy::denied;
use crate::policy::kind_str;
use crate::policy::properties_of;

verus! {

/// What one instrumented operation records besides its duration: the kind
/// it is logged under and the properties of this execution.
pub struct ScopedInstrumenter {
    pub kind: String,
    pub properties: Vec<String>,
}

impl ScopedInstrumenter {
    /// Classifies `instruction`: no handle for an operation the exclusion
    /// table denies; otherwise a handle with the tag's kind string and the
    /// keep-count property where the tag carries one.
    pub fn new(instruction: &Instruction) -> (r: Option<ScopedInstrumenter>)
        ensures
            r is Some <==> !is_denied(*instruction),
            (r matches Some(h) ==> {
                &&& h.kind@ == kind_name(*instruction)
                &&& h.properties@.map_values(|p: String| p@) == keep_props(*instruction)
            }),
    {
        if denied(instruction) {
            return None;
        }
        let kind = kind_str(instruction).to_owned();
        let properties = properties_of(instruction);
        Some(ScopedInstrumenter { kind, properties })
    }
}

} // verus!
