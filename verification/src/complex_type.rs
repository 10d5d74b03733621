//! A complex type: the struct it becomes, with a field for each child and
//! each attribute.

use vstd::prelude::*;
use crate::annotation::{annotation_text, implement_annotation, Annotation};
use crate::attribute::{attributes_text, implement_attributes, Attribute};
use crate::attribute_group::{attribute_groups_text, implement_attribute_groups, AttributeGroup};
use crate::choice::{choice_fields_text, Choice};
use crate::complex_content::{complex_content_derived_text, ComplexContent};
use crate::error::{failure, outcome, ErrorKind, GenError, Outcome};
use crate::extension::{
    extension_declaration_text, extension_fields_text, sequences_fields_text, Extension,
};
use crate::naming::{as_identifier, dotted_struct_name, dotted_struct_name_of, identifier};
use crate::render::YASERDE_DERIVES;
use crate::rust_types_mapping::type_text;
use crate::sequence::{elements_subtypes_text, sequence_fields_text, sequence_subtypes_text, Sequence};
use crate::simple_content::SimpleContent;
use crate::text::text_option;
use crate::xsd_context::{ContextModel, XsdContext};

verus! {

#[derive(Default, Debug, PartialEq)]
pub struct ComplexType {
    pub name: String,
    pub attributes: Vec<Attribute>,
    pub attribute_groups: Vec<AttributeGroup>,
    pub sequence: Option<Sequence>,
    pub choice: Option<Choice>,
    pub simple_content: Option<SimpleContent>,
    pub complex_content: Option<ComplexContent>,
    pub annotation: Option<Annotation>,
}

/// How many of the four exclusive kinds of content a complex type fills in.
pub open spec fn content_forms(complex_type: ComplexType) -> nat {
    let sequence: nat = if complex_type.sequence is Some { 1 } else { 0 };
    let choice: nat = if complex_type.choice is Some { 1 } else { 0 };
    let simple: nat = if complex_type.simple_content is Some { 1 } else { 0 };
    let complex: nat = if complex_type.complex_content is Some { 1 } else { 0 };
    sequence + choice + simple + complex
}

/// The Rust type of an element whose complex type is written inline:
/// `String` where the type has simple content, the element's own name where
/// it has a sequence, else `String`. A type with more than one kind of
/// content is a failure that names the element.
pub open spec fn integrated_text(complex_type: ComplexType, parent_name: Seq<char>) -> Outcome {
    if content_forms(complex_type) > 1 {
        Err(failure(ErrorKind::AmbiguousType, parent_name))
    } else if complex_type.simple_content is Some {
        Ok("String"@)
    } else if complex_type.sequence is Some {
        as_identifier(parent_name)
    } else {
        Ok("String"@)
    }
}

/// The fields that a complex type written inline gives the declaration of
/// its element: those of its sequence, of its choice or of its simple
/// content. A type with more than one kind of content is a failure.
pub open spec fn complex_type_fields_text(
    complex_type: ComplexType,
    context: ContextModel,
    prefix: Option<Seq<char>>,
) -> Outcome {
    if content_forms(complex_type) > 1 {
        Err(failure(ErrorKind::AmbiguousType, complex_type.name@))
    } else {
        match complex_type.sequence {
            Some(sequence) => sequence_fields_text(sequence, context, prefix),
            None => match complex_type.choice {
                Some(choice) => choice_fields_text(choice, context, prefix),
                None => match complex_type.simple_content {
                    Some(content) => extension_fields_text(content.extension, context, prefix),
                    None => Ok(Seq::empty()),
                },
            },
        }
    }
}

/// The fields for the content of a complex type: those of its sequence, of
/// its choice, or of its simple content, or the base and the additions of
/// its complex content.
pub open spec fn complex_type_content_text(
    complex_type: ComplexType,
    context: ContextModel,
    prefix: Option<Seq<char>>,
) -> Outcome {
    match complex_type.sequence {
        Some(sequence) => sequence_fields_text(sequence, context, prefix),
        None => match complex_type.choice {
            Some(choice) => choice_fields_text(choice, context, prefix),
            None => match complex_type.simple_content {
                Some(content) => extension_declaration_text(content.extension, context),
                None => match complex_type.complex_content {
                    Some(content) => complex_content_derived_text(content, context, prefix),
                    None => Ok(Seq::empty()),
                },
            },
        },
    }
}

/// The declarations that the children of a complex type add beside it.
pub open spec fn complex_type_subtypes_text(
    complex_type: ComplexType,
    namespace_definition: Seq<char>,
    context: ContextModel,
    prefix: Option<Seq<char>>,
) -> Outcome {
    match complex_type.sequence {
        Some(sequence) => sequence_subtypes_text(sequence, namespace_definition, context, prefix),
        None => match complex_type.choice {
            Some(choice) => elements_subtypes_text(
                choice.element@,
                namespace_definition,
                context,
                prefix,
            ),
            None => Ok(Seq::empty()),
        },
    }
}

/// The declaration of a complex type: a struct whose fields are those of
/// its content, then its own attributes, then those of the attribute groups
/// it uses, which are looked up among the groups that the context holds;
/// after it, the declarations that its children add. A type with more than
/// one kind of content is a failure.
pub open spec fn complex_type_declaration_text(
    complex_type: ComplexType,
    namespace_definition: Seq<char>,
    context: ContextModel,
    prefix: Option<Seq<char>>,
) -> Outcome {
    match dotted_struct_name_of(complex_type.name@) {
        Err(f) => Err(f),
        Ok(name) => if content_forms(complex_type) > 1 {
            Err(failure(ErrorKind::AmbiguousType, complex_type.name@))
        } else {
            match complex_type_content_text(complex_type, context, prefix) {
                Err(f) => Err(f),
                Ok(content) => match attributes_text(complex_type.attributes@, context) {
                    Err(f) => Err(f),
                    Ok(attributes) => match attribute_groups_text(
                        complex_type.attribute_groups@,
                        context,
                    ) {
                        Err(f) => Err(f),
                        Ok(grouped) => match complex_type_subtypes_text(
                            complex_type,
                            namespace_definition,
                            context,
                            prefix,
                        ) {
                            Err(f) => Err(f),
                            Ok(subtypes) => Ok(
                                annotation_text(complex_type.annotation) + YASERDE_DERIVES@
                                    + namespace_definition + "pub struct "@ + name + " { "@
                                    + content + attributes + grouped + "} "@ + subtypes,
                            ),
                        },
                    },
                },
            }
        },
    }
}

/// A type that extends a base by complex content holds the base in one
/// field, flattened into the type, and after it each field that the
/// extension adds, as a field of the type itself and not of the base.
pub proof fn lemma_extension_flattens_base(
    complex_type: ComplexType,
    context: ContextModel,
    prefix: Option<Seq<char>>,
    extension: Extension,
    base: Seq<char>,
)
    requires
        complex_type.sequence is None,
        complex_type.choice is None,
        complex_type.simple_content is None,
        complex_type.complex_content == Some(ComplexContent { extension: Some(extension) }),
        extension.group is None,
        type_text(context, extension.base@) == Ok::<Seq<char>, crate::error::Failure>(base),
        base != "String"@,
    ensures
        match (
            complex_type_content_text(complex_type, context, prefix),
            sequences_fields_text(extension.sequences@, context, prefix),
        ) {
            (Ok(fields), Ok(added)) => fields == "#[yaserde(flatten)] pub base: "@ + base + " , "@
                + added,
            (Err(f), Err(g)) => f == g,
            _ => false,
        },
{
    reveal_strlit("#[yaserde(flatten)] pub base: ");
    reveal_strlit("#[yaserde(flatten)] ");
    reveal_strlit("pub base: ");
    assert("#[yaserde(flatten)] pub base: "@ =~= "#[yaserde(flatten)] "@ + "pub base: "@);
    match sequences_fields_text(extension.sequences@, context, prefix) {
        Ok(added) => {
            assert("#[yaserde(flatten)] "@ + ("pub base: "@ + base + " , "@ + Seq::<char>::empty()
                + added) =~= "#[yaserde(flatten)] pub base: "@ + base + " , "@ + added);
        },
        Err(_) => {},
    }
}

impl ComplexType {
    /// Whether this type fills in at most one kind of content.
    pub fn has_single_content(&self) -> (r: bool)
        ensures
            r == (content_forms(*self) <= 1),
    {
        let mut forms: u8 = 0;
        if self.sequence.is_some() {
            forms = forms + 1;
        }
        if self.choice.is_some() {
            forms = forms + 1;
        }
        if self.simple_content.is_some() {
            forms = forms + 1;
        }
        if self.complex_content.is_some() {
            forms = forms + 1;
        }
        forms <= 1
    }

    /// Generates the fields for the content of this type.
    pub fn content(&self, namespace_definition: &str, prefix: &Option<String>, context: &XsdContext)
        -> (r: Result<String, GenError>)
        ensures
            outcome(r) == complex_type_content_text(*self, context@, text_option(*prefix)),
    {
        match &self.sequence {
            Some(sequence) => sequence.implement(namespace_definition, prefix, context),
            None => match &self.choice {
                Some(choice) => choice.get_field_implementation(context, prefix),
                None => match &self.simple_content {
                    Some(content) => content.implement(namespace_definition, prefix, context),
                    None => match &self.complex_content {
                        Some(content) => content.get_derived_implementation(context, prefix),
                        None => Ok(String::new()),
                    },
                },
            },
        }
    }

    /// Generates the declarations that the children of this type add beside it.
    pub fn subtypes(&self, namespace_definition: &str, prefix: &Option<String>, context: &XsdContext)
        -> (r: Result<String, GenError>)
        ensures
            outcome(r) == complex_type_subtypes_text(
                *self,
                namespace_definition@,
                context@,
                text_option(*prefix),
            ),
    {
        match &self.sequence {
            Some(sequence) => sequence.get_sub_types_implementation(
                context,
                namespace_definition,
                prefix,
            ),
            None => match &self.choice {
                Some(choice) => choice.get_sub_types_implementation(
                    context,
                    namespace_definition,
                    prefix,
                ),
                None => Ok(String::new()),
            },
        }
    }

    /// Generates the declaration of this complex type. The attribute groups
    /// that it refers to are looked up among those that the context holds.
    pub fn implement(
        &self,
        namespace_definition: &str,
        prefix: &Option<String>,
        context: &XsdContext,
    ) -> (r: Result<String, GenError>)
        ensures
            outcome(r) == complex_type_declaration_text(
                *self,
                namespace_definition@,
                context@,
                text_option(*prefix),
            ),
    {
        let name = dotted_struct_name(self.name.as_str())?;
        if !self.has_single_content() {
            return Err(GenError::new(ErrorKind::AmbiguousType, self.name.as_str()));
        }
        let content = self.content(namespace_definition, prefix, context)?;
        let attributes = implement_attributes(
            &self.attributes,
            namespace_definition,
            prefix,
            context,
        )?;
        let grouped = implement_attribute_groups(
            &self.attribute_groups,
            namespace_definition,
            prefix,
            context,
        )?;
        let subtypes = self.subtypes(namespace_definition, prefix, context)?;
        let mut out = implement_annotation(&self.annotation, namespace_definition, prefix, context);
        out.append(YASERDE_DERIVES);
        out.append(namespace_definition);
        out.append("pub struct ");
        out.append(name.as_str());
        out.append(" { ");
        out.append(content.as_str());
        out.append(attributes.as_str());
        out.append(grouped.as_str());
        out.append("} ");
        out.append(subtypes.as_str());
        Ok(out)
    }

    /// Generates the fields that this type, written inline, gives the
    /// declaration of its element.
    pub fn get_field_implementation(&self, context: &XsdContext, prefix: &Option<String>) -> (r:
        Result<String, GenError>)
        ensures
            outcome(r) == complex_type_fields_text(*self, context@, text_option(*prefix)),
    {
        if !self.has_single_content() {
            return Err(GenError::new(ErrorKind::AmbiguousType, self.name.as_str()));
        }
        match &self.sequence {
            Some(sequence) => sequence.get_field_implementation(context, prefix),
            None => match &self.choice {
                Some(choice) => choice.get_field_implementation(context, prefix),
                None => match &self.simple_content {
                    Some(content) => content.get_field_implementation(context, prefix),
                    None => Ok(String::new()),
                },
            },
        }
    }

    /// The Rust type of an element called `parent_name` whose complex type
    /// this is.
    pub fn get_integrated_implementation(&self, parent_name: &str) -> (r: Result<String, GenError>)
        ensures
            outcome(r) == integrated_text(*self, parent_name@),
    {
        if !self.has_single_content() {
            return Err(GenError::new(ErrorKind::AmbiguousType, parent_name));
        }
        if self.simple_content.is_some() {
            return Ok("String".to_owned());
        }
        if self.sequence.is_some() {
            return identifier(parent_name.to_owned());
        }
        Ok("String".to_owned())
    }
}

} // verus!
