//! An extension of a base type: the base, flattened into the extending
//! type, and what the extension adds to it.

use vstd::prelude::*;
use crate::attribute::{attributes_text, implement_attributes, Attribute};
use crate::error::{outcome, Failure, GenError, Outcome};
use crate::group::{group_type_text, Group};
use crate::render::{join_outcomes, lemma_join_fails, lemma_join_step};
use crate::rust_types_mapping::{type_text, RustTypesMapping};
use crate::sequence::{sequence_fields_text, Sequence};
use crate::text::{same_text, text_option};
use crate::xsd_context::{ContextModel, XsdContext};

verus! {

#[derive(Default, Debug, PartialEq)]
pub struct Extension {
    pub base: String,
    pub attributes: Vec<Attribute>,
    pub sequences: Vec<Sequence>,
    pub group: Option<Group>,
}

/// How the base of an extension is tied to the type that holds it: as its
/// whole text where the base is `String`, else flattened into it.
pub open spec fn base_marker_text(ty: Seq<char>) -> Seq<char> {
    if ty == "String"@ {
        "#[yaserde(text)] "@
    } else {
        "#[yaserde(flatten)] "@
    }
}

/// The fields of an extension of simple content: the base, as the text of
/// the element where it is a string and flattened where it is not, then the
/// attributes.
pub open spec fn extension_declaration_text(extension: Extension, context: ContextModel) -> Outcome {
    match type_text(context, extension.base@) {
        Err(f) => Err(f),
        Ok(ty) => match attributes_text(extension.attributes@, context) {
            Err(f) => Err(f),
            Ok(attributes) => Ok(
                base_marker_text(ty) + "pub base: "@ + ty + " , "@ + attributes,
            ),
        },
    }
}

/// The field for the group that an extension refers to, flattened like the base.
pub open spec fn extension_group_text(group: Option<Group>, context: ContextModel) -> Outcome {
    match group {
        None => Ok(Seq::empty()),
        Some(g) => match group_type_text(g, context) {
            Err(f) => Err(f),
            Ok(ty) => Ok("#[serde(flatten)] pub extension: "@ + ty + " , "@),
        },
    }
}

/// The fields of a run of sequences, in order.
pub open spec fn sequences_fields_text(
    sequences: Seq<Sequence>,
    context: ContextModel,
    prefix: Option<Seq<char>>,
) -> Outcome {
    join_outcomes(
        Seq::new(sequences.len(), |i: int| sequence_fields_text(sequences[i], context, prefix)),
    )
}

/// The fields that an extension brings into the type that derives from its
/// base: the base itself, the group it refers to, and the fields it adds.
pub open spec fn extension_fields_text(
    extension: Extension,
    context: ContextModel,
    prefix: Option<Seq<char>>,
) -> Outcome {
    match type_text(context, extension.base@) {
        Err(f) => Err(f),
        Ok(ty) => match extension_group_text(extension.group, context) {
            Err(f) => Err(f),
            Ok(group) => match sequences_fields_text(extension.sequences@, context, prefix) {
                Err(f) => Err(f),
                Ok(added) => Ok("pub base: "@ + ty + " , "@ + group + added),
            },
        },
    }
}

/// The fields of a type that derives from the base of an extension: the
/// base, as the whole text of the type where it is a string and flattened
/// into the type where it is not, and beside it what the extension adds.
pub open spec fn extension_derived_text(
    extension: Extension,
    context: ContextModel,
    prefix: Option<Seq<char>>,
) -> Outcome {
    match type_text(context, extension.base@) {
        Err(f) => Err(f),
        Ok(ty) => match extension_fields_text(extension, context, prefix) {
            Err(f) => Err(f),
            Ok(fields) => Ok(base_marker_text(ty) + fields),
        },
    }
}

/// Generates the fields of a run of sequences, in order.
pub fn implement_sequences(
    sequences: &Vec<Sequence>,
    context: &XsdContext,
    prefix: &Option<String>,
) -> (r: Result<String, GenError>)
    ensures
        outcome(r) == sequences_fields_text(sequences@, context@, text_option(*prefix)),
{
    let ghost parts = Seq::new(
        sequences@.len(),
        |i: int| sequence_fields_text(sequences@[i], context@, text_option(*prefix)),
    );
    let mut out = String::new();
    let mut i: usize = 0;
    proof {
        assert(parts.take(0) =~= Seq::empty());
    }
    while i < sequences.len()
        invariant
            i <= sequences.len(),
            parts == Seq::new(
                sequences@.len(),
                |i: int| sequence_fields_text(sequences@[i], context@, text_option(*prefix)),
            ),
            join_outcomes(parts.take(i as int)) == Ok::<Seq<char>, Failure>(out@),
        decreases sequences.len() - i,
    {
        proof {
            lemma_join_step(parts, i as int);
        }
        match sequences[i].get_field_implementation(context, prefix) {
            Ok(text) => {
                out.append(text.as_str());
            },
            Err(e) => {
                proof {
                    lemma_join_fails(parts, i + 1);
                }
                return Err(e);
            },
        }
        i = i + 1;
    }
    proof {
        assert(parts.take(i as int) == parts);
    }
    Ok(out)
}

impl Extension {
    /// Generates the fields of this extension of simple content.
    pub fn implement(
        &self,
        namespace_definition: &str,
        prefix: &Option<String>,
        context: &XsdContext,
    ) -> (r: Result<String, GenError>)
        ensures
            outcome(r) == extension_declaration_text(*self, context@),
    {
        let ty = RustTypesMapping::get(context, self.base.as_str())?;
        let attributes = implement_attributes(
            &self.attributes,
            namespace_definition,
            prefix,
            context,
        )?;
        let mut out = if same_text(ty.as_str(), "String") {
            "#[yaserde(text)] ".to_owned()
        } else {
            "#[yaserde(flatten)] ".to_owned()
        };
        out.append("pub base: ");
        out.append(ty.as_str());
        out.append(" , ");
        out.append(attributes.as_str());
        Ok(out)
    }

    /// Generates the fields of the type that derives from the base of this
    /// extension, the base marked as its text or as flattened into it.
    pub fn get_derived_implementation(&self, context: &XsdContext, prefix: &Option<String>) -> (r:
        Result<String, GenError>)
        ensures
            outcome(r) == extension_derived_text(*self, context@, text_option(*prefix)),
    {
        let ty = RustTypesMapping::get(context, self.base.as_str())?;
        let fields = self.get_field_implementation(context, prefix)?;
        let mut out = if same_text(ty.as_str(), "String") {
            "#[yaserde(text)] ".to_owned()
        } else {
            "#[yaserde(flatten)] ".to_owned()
        };
        out.append(fields.as_str());
        Ok(out)
    }

    /// Generates the fields that this extension brings into the type that
    /// derives from its base.
    pub fn get_field_implementation(&self, context: &XsdContext, prefix: &Option<String>) -> (r:
        Result<String, GenError>)
        ensures
            outcome(r) == extension_fields_text(*self, context@, text_option(*prefix)),
    {
        let ty = RustTypesMapping::get(context, self.base.as_str())?;
        let group = match &self.group {
            None => String::new(),
            Some(g) => {
                let group_type = g.get_type_implementation(context, prefix)?;
                let mut field = "#[serde(flatten)] pub extension: ".to_owned();
                field.append(group_type.as_str());
                field.append(" , ");
                field
            },
        };
        let added = implement_sequences(&self.sequences, context, prefix)?;
        let mut out = "pub base: ".to_owned();
        out.append(ty.as_str());
        out.append(" , ");
        out.append(group.as_str());
        out.append(added.as_str());
        Ok(out)
    }
}

} // verus!
