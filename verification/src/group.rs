//! A named group of elements, or a reference to one.

use vstd::prelude::*;
use crate::error::{failure, outcome, ErrorKind, GenError, Outcome};
use crate::naming::{struct_name, struct_name_of};
use crate::render::SERDE_DERIVES;
use crate::rust_types_mapping::{type_text, RustTypesMapping};
use crate::sequence::{sequence_fields_text, Sequence};
use crate::text::text_option;
use crate::xsd_context::{ContextModel, XsdContext};

verus! {

#[derive(Default, Debug, PartialEq)]
pub struct Group {
    pub name: Option<String>,
    pub reference: Option<String>,
    pub sequence: Option<Sequence>,
}

/// The fields of a group: those of its sequence.
pub open spec fn group_fields_text(group: Group, context: ContextModel, prefix: Option<Seq<char>>)
    -> Outcome {
    match group.sequence {
        Some(sequence) => sequence_fields_text(sequence, context, prefix),
        None => Ok(Seq::empty()),
    }
}

/// The declaration of a named group; a group without a name declares nothing.
pub open spec fn group_declaration_text(
    group: Group,
    namespace_definition: Seq<char>,
    context: ContextModel,
    prefix: Option<Seq<char>>,
) -> Outcome {
    match group.name {
        None => Ok(Seq::empty()),
        Some(raw) => match struct_name_of(raw@) {
            Err(f) => Err(f),
            Ok(name) => match group_fields_text(group, context, prefix) {
                Err(f) => Err(f),
                Ok(fields) => Ok(
                    SERDE_DERIVES@ + namespace_definition + "pub struct "@ + name + " { "@ + fields
                        + "} "@,
                ),
            },
        },
    }
}

/// The Rust type that a group reference stands for; without a reference, a
/// missing reference.
pub open spec fn group_type_text(group: Group, context: ContextModel) -> Outcome {
    match group.reference {
        Some(reference) => type_text(context, reference@),
        None => Err(failure(ErrorKind::MissingReference, "group"@)),
    }
}

impl Group {
    /// Generates the declaration of this group.
    pub fn implement(
        &self,
        namespace_definition: &str,
        prefix: &Option<String>,
        context: &XsdContext,
    ) -> (r: Result<String, GenError>)
        ensures
            outcome(r) == group_declaration_text(
                *self,
                namespace_definition@,
                context@,
                text_option(*prefix),
            ),
    {
        let raw = match &self.name {
            None => {
                return Ok(String::new());
            },
            Some(raw) => raw,
        };
        let name = struct_name(raw.as_str())?;
        let fields = match &self.sequence {
            Some(sequence) => sequence.get_field_implementation(context, prefix)?,
            None => String::new(),
        };
        let mut out = SERDE_DERIVES.to_owned();
        out.append(namespace_definition);
        out.append("pub struct ");
        out.append(name.as_str());
        out.append(" { ");
        out.append(fields.as_str());
        out.append("} ");
        Ok(out)
    }

    /// The Rust type that this group reference stands for.
    pub fn get_type_implementation(&self, context: &XsdContext, _prefix: &Option<String>) -> (r:
        Result<String, GenError>)
        ensures
            outcome(r) == group_type_text(*self, context@),
    {
        match &self.reference {
            Some(reference) => RustTypesMapping::get(context, reference.as_str()),
            None => Err(GenError::new(ErrorKind::MissingReference, "group")),
        }
    }
}

} // verus!
