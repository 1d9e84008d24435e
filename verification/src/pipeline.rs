//! The normalization pipeline: destructors, default-argument overloads,
//! template instantiation, inheritance propagation — in that order, each
//! pass completing before the next starts.

use vstd::prelude::*;
use crate::model::{CppData, CppDataV};
use crate::destructors::{spec_synth_dtors, spec_with_methods};
use crate::overloads::spec_omitted_all;
use crate::instantiate::spec_pass_contrib;
use crate::inherit::spec_inherit_all;

verus! {

/// The database after destructor synthesis.
pub open spec fn spec_after_destructors(d: CppDataV) -> CppDataV {
    spec_with_methods(d, d.methods + spec_synth_dtors(d, d.types.len() as int))
}

/// The database after default-argument expansion.
pub open spec fn spec_after_overloads(d: CppDataV) -> CppDataV {
    spec_with_methods(d, d.methods + spec_omitted_all(d.methods, d.methods.len() as int))
}

/// The database after template instantiation, or `None` on an
/// internal-consistency fault.
pub open spec fn spec_after_instantiation(d: CppDataV) -> Option<CppDataV> {
    match spec_pass_contrib(d, d.methods.len() as int) {
        Some(ms) => Some(spec_with_methods(d, d.methods + ms)),
        None => None,
    }
}

/// The database after inheritance propagation.
pub open spec fn spec_after_inheritance(d: CppDataV) -> CppDataV {
    spec_with_methods(d, spec_inherit_all(d.types, d.methods, d.types.len() as int))
}

/// The whole pipeline applied to a database.
pub open spec fn spec_post_process(d: CppDataV) -> Option<CppDataV> {
    match spec_after_instantiation(spec_after_overloads(spec_after_destructors(d))) {
        Some(d3) => Some(spec_after_inheritance(d3)),
        None => None,
    }
}

impl CppData {
    /// Runs the normalization pipeline: synthesizes destructors, expands
    /// default-argument overloads, instantiates templates, and
    /// propagates inherited methods. An internal-consistency fault found
    /// by template instantiation stops the pipeline after the first two
    /// passes.
    pub fn post_process(&mut self) -> (r: Result<(), String>)
        ensures
            r is Ok <==> spec_post_process(old(self)@) is Some,
            r is Ok ==> final(self)@ == spec_post_process(old(self)@)->0,
            r is Err ==> final(self)@ == spec_after_overloads(spec_after_destructors(old(self)@)),
    {
        let ghost d0 = old(self)@;
        self.ensure_explicit_destructors();
        proof {
            assert(self@ =~= spec_after_destructors(d0));
        }
        let ghost d1 = self@;
        self.generate_methods_with_omitted_args();
        proof {
            assert(self@ =~= spec_after_overloads(d1));
        }
        let ghost d2 = self@;
        match self.instantiate_templates() {
            Ok(()) => {},
            Err(e) => {
                return Err(e);
            },
        }
        proof {
            assert(self@ =~= spec_after_instantiation(d2)->0);
        }
        let ghost d3 = self@;
        self.add_inherited_methods();
        proof {
            assert(self@ =~= spec_after_inheritance(d3));
        }
        Ok(())
    }
}

} // verus!
