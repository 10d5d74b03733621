//! A restriction of a simple type. Facets are not modelled: a restricted type
//! stands for its base.

use vstd::prelude::*;
use crate::error::{failure, outcome, ErrorKind, GenError, Outcome};
use crate::rust_types_mapping::{type_text, RustTypesMapping};
use crate::xsd_context::{ContextModel, XsdContext};

verus! {

#[derive(Clone, Default, Debug, PartialEq)]
pub struct Restriction {
    pub base: Option<String>,
}

/// The Rust type of a restriction: that of its base; without a base, a
/// missing reference.
pub open spec fn restriction_type_text(restriction: Restriction, context: ContextModel) -> Outcome {
    match restriction.base {
        Some(base) => type_text(context, base@),
        None => Err(failure(ErrorKind::MissingReference, "restriction"@)),
    }
}

impl Restriction {
    /// The Rust type that stands for this restriction.
    pub fn get_type_implementation(&self, context: &XsdContext, _prefix: &Option<String>) -> (r:
        Result<String, GenError>)
        ensures
            outcome(r) == restriction_type_text(*self, context@),
    {
        match &self.base {
            Some(base) => RustTypesMapping::get(context, base.as_str()),
            None => Err(GenError::new(ErrorKind::MissingReference, "restriction")),
        }
    }
}

} // verus!
