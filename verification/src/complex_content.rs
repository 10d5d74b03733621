//! Complex content of a complex type: a derivation from a base type.

use vstd::prelude::*;
use crate::error::{failure, outcome, ErrorKind, GenError, Outcome};
use crate::extension::{extension_derived_text, extension_fields_text, Extension};
use crate::text::text_option;
use crate::xsd_context::{ContextModel, XsdContext};

verus! {

#[derive(Default, Debug, PartialEq)]
pub struct ComplexContent {
    pub extension: Option<Extension>,
}

/// The fields of complex content: those of its extension; without one, a
/// missing reference.
pub open spec fn complex_content_fields_text(
    content: ComplexContent,
    context: ContextModel,
    prefix: Option<Seq<char>>,
) -> Outcome {
    match content.extension {
        Some(extension) => extension_fields_text(extension, context, prefix),
        None => Err(failure(ErrorKind::MissingReference, "complexContent"@)),
    }
}

/// The fields of a type with complex content: the base of its extension,
/// marked as text or as flattened, and what the extension adds; without an
/// extension, a missing reference.
pub open spec fn complex_content_derived_text(
    content: ComplexContent,
    context: ContextModel,
    prefix: Option<Seq<char>>,
) -> Outcome {
    match content.extension {
        Some(extension) => extension_derived_text(extension, context, prefix),
        None => Err(failure(ErrorKind::MissingReference, "complexContent"@)),
    }
}

impl ComplexContent {
    /// Generates the fields of the type that holds this complex content.
    pub fn get_derived_implementation(&self, context: &XsdContext, prefix: &Option<String>) -> (r:
        Result<String, GenError>)
        ensures
            outcome(r) == complex_content_derived_text(*self, context@, text_option(*prefix)),
    {
        match &self.extension {
            Some(extension) => extension.get_derived_implementation(context, prefix),
            None => Err(GenError::new(ErrorKind::MissingReference, "complexContent")),
        }
    }

    /// Generates the fields that this complex content brings into its type.
    pub fn get_field_implementation(&self, context: &XsdContext, prefix: &Option<String>) -> (r:
        Result<String, GenError>)
        ensures
            outcome(r) == complex_content_fields_text(*self, context@, text_option(*prefix)),
    {
        match &self.extension {
            Some(extension) => extension.get_field_implementation(context, prefix),
            None => Err(GenError::new(ErrorKind::MissingReference, "complexContent")),
        }
    }
}

} // verus!
