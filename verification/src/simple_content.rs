//! Simple content of a complex type: text that an extension gives attributes.

use vstd::prelude::*;
use crate::error::{outcome, GenError};
use crate::extension::{extension_declaration_text, extension_fields_text, Extension};
use crate::text::text_option;
use crate::xsd_context::XsdContext;

verus! {

#[derive(Default, Debug, PartialEq)]
pub struct SimpleContent {
    pub extension: Extension,
}

impl SimpleContent {
    /// Generates the fields of this simple content: those of its extension.
    pub fn implement(
        &self,
        namespace_definition: &str,
        prefix: &Option<String>,
        context: &XsdContext,
    ) -> (r: Result<String, GenError>)
        ensures
            outcome(r) == extension_declaration_text(self.extension, context@),
    {
        self.extension.implement(namespace_definition, prefix, context)
    }

    /// Generates the fields that this simple content brings into an element.
    pub fn get_field_implementation(&self, context: &XsdContext, prefix: &Option<String>) -> (r:
        Result<String, GenError>)
        ensures
            outcome(r) == extension_fields_text(self.extension, context@, text_option(*prefix)),
    {
        self.extension.get_field_implementation(context, prefix)
    }
}

} // verus!
