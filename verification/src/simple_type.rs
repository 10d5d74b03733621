//! A named simple type: a restriction, a list or a union of other types.

use vstd::prelude::*;
use crate::error::{failure, outcome, ErrorKind, GenError, Outcome};
use crate::list::{list_text, List};
use crate::naming::{struct_name, struct_name_of};
use crate::render::YASERDE_DERIVES;
use crate::restriction::{restriction_type_text, Restriction};
use crate::union::Union;
use crate::xsd_context::{ContextModel, XsdContext};

verus! {

#[derive(Clone, Default, Debug, PartialEq)]
pub struct SimpleType {
    pub name: String,
    pub restriction: Option<Restriction>,
    pub list: Option<List>,
    pub union: Option<Union>,
}

/// The Rust type used where a simple type stands inline: that of its
/// restriction; without one, a missing reference that names the type.
pub open spec fn simple_type_text(simple_type: SimpleType, context: ContextModel) -> Outcome {
    match simple_type.restriction {
        Some(restriction) => restriction_type_text(restriction, context),
        None => Err(failure(ErrorKind::MissingReference, simple_type.name@)),
    }
}

/// The declaration of a simple type that is no list: a struct around its text.
pub open spec fn text_struct_text(namespace_definition: Seq<char>, name: Seq<char>) -> Seq<char> {
    YASERDE_DERIVES@ + namespace_definition + "pub struct "@ + name
        + " { #[yaserde(text)] pub content: std::string::String, } "@
}

/// What a named simple type generates: the declaration of a list type where
/// it is a list, else a struct around its text.
pub open spec fn simple_type_declaration_text(
    simple_type: SimpleType,
    namespace_definition: Seq<char>,
    context: ContextModel,
) -> Outcome {
    match struct_name_of(simple_type.name@) {
        Err(f) => Err(f),
        Ok(name) => match simple_type.list {
            Some(list) => list_text(list, context, name),
            None => Ok(text_struct_text(namespace_definition, name)),
        },
    }
}

impl SimpleType {
    /// A copy of this simple type.
    pub fn duplicate(&self) -> (copy: SimpleType)
        ensures
            copy == *self,
    {
        SimpleType {
            name: self.name.clone(),
            restriction: match &self.restriction {
                Some(restriction) => Some(
                    Restriction {
                        base: match &restriction.base {
                            Some(base) => Some(base.clone()),
                            None => None,
                        },
                    },
                ),
                None => None,
            },
            list: match &self.list {
                Some(list) => Some(List { item_type: list.item_type.clone() }),
                None => None,
            },
            union: match &self.union {
                Some(union) => Some(Union { member_types: union.member_types.clone() }),
                None => None,
            },
        }
    }

    /// Generates the declaration of this simple type.
    pub fn implement(
        &self,
        namespace_definition: &str,
        prefix: &Option<String>,
        context: &XsdContext,
    ) -> (r: Result<String, GenError>)
        ensures
            outcome(r) == simple_type_declaration_text(*self, namespace_definition@, context@),
    {
        let name = struct_name(self.name.as_str())?;
        match &self.list {
            Some(list) => list.implement_childs(
                namespace_definition,
                prefix,
                context,
                name.as_str(),
            ),
            None => {
                let mut out = YASERDE_DERIVES.to_owned();
                out.append(namespace_definition);
                out.append("pub struct ");
                out.append(name.as_str());
                out.append(" { #[yaserde(text)] pub content: std::string::String, } ");
                Ok(out)
            },
        }
    }

    /// The Rust type used where this simple type stands inline.
    pub fn get_type_implementation(&self, context: &XsdContext, prefix: &Option<String>) -> (r:
        Result<String, GenError>)
        ensures
            outcome(r) == simple_type_text(*self, context@),
    {
        match &self.restriction {
            Some(restriction) => restriction.get_type_implementation(context, prefix),
            None => Err(GenError::new(ErrorKind::MissingReference, self.name.as_str())),
        }
    }
}

} // verus!
