//! The root of a schema document and the unit of code it becomes: a module
//! of the named types, followed by the declarations of the root elements.

use vstd::prelude::*;
use crate::attribute::Attribute;
use crate::attribute_group::{group_models, AttributeGroup};
use crate::complex_type::{complex_type_declaration_text, ComplexType};
use crate::element::Element;
use crate::error::{failure, outcome, ErrorKind, Failure, GenError, Outcome};
use crate::group::{group_declaration_text, Group};
use crate::import::Import;
use crate::naming::{quote_text, string_literal};
use crate::qualification::Qualification;
use crate::render::{join_outcomes, lemma_join_fails, lemma_join_step};
use crate::sequence::{elements_declarations_text, implement_declarations};
use crate::simple_type::{simple_type_declaration_text, SimpleType};
use crate::text::text_option;
use crate::xsd_context::{ContextModel, XsdContext};

verus! {

#[derive(Default, Debug, PartialEq)]
pub struct Schema {
    pub target_namespace: Option<String>,
    pub element_form_default: Option<Qualification>,
    pub attribute_form_default: Option<Qualification>,
    pub imports: Vec<Import>,
    pub elements: Vec<Element>,
    pub simple_type: Vec<SimpleType>,
    pub complex_type: Vec<ComplexType>,
    pub attributes: Vec<Attribute>,
    pub attribute_group: Vec<AttributeGroup>,
    pub group: Vec<Group>,
}

/// The attribute that ties every declaration to the target namespace. The
/// output prefix and the target namespace come together or not at all: one
/// without the other is a configuration failure that names the one given.
pub open spec fn namespace_definition_text(
    target_prefix: Option<Seq<char>>,
    target_namespace: Option<Seq<char>>,
) -> Outcome {
    match (target_prefix, target_namespace) {
        (None, None) => Ok(Seq::empty()),
        (None, Some(namespace)) => Err(failure(ErrorKind::Configuration, namespace)),
        (Some(prefix), None) => Err(failure(ErrorKind::Configuration, prefix)),
        (Some(prefix), Some(namespace)) => Ok(
            "#[yaserde(prefix="@ + string_literal(prefix) + ", namespace="@ + string_literal(
                prefix + ": "@ + namespace,
            ) + ")] "@,
        ),
    }
}

/// Generates the attribute that ties every declaration to the target namespace.
pub fn generate_namespace_definition(
    target_prefix: &Option<String>,
    target_namespace: &Option<String>,
) -> (r: Result<String, GenError>)
    ensures
        outcome(r) == namespace_definition_text(
            text_option(*target_prefix),
            text_option(*target_namespace),
        ),
{
    match (target_prefix, target_namespace) {
        (None, None) => Ok(String::new()),
        (None, Some(namespace)) => Err(
            GenError::new(ErrorKind::Configuration, namespace.as_str()),
        ),
        (Some(prefix), None) => Err(GenError::new(ErrorKind::Configuration, prefix.as_str())),
        (Some(prefix), Some(namespace)) => {
            let mut bound = prefix.clone();
            bound.append(": ");
            bound.append(namespace.as_str());
            let prefix_literal = quote_text(prefix.as_str());
            let bound_literal = quote_text(bound.as_str());
            let mut out = "#[yaserde(prefix=".to_owned();
            out.append(prefix_literal.as_str());
            out.append(", namespace=");
            out.append(bound_literal.as_str());
            out.append(")] ");
            Ok(out)
        },
    }
}

/// The declarations of a run of simple types.
pub open spec fn simple_types_text(
    simple_types: Seq<SimpleType>,
    namespace_definition: Seq<char>,
    context: ContextModel,
) -> Outcome {
    join_outcomes(
        Seq::new(
            simple_types.len(),
            |i: int| simple_type_declaration_text(simple_types[i], namespace_definition, context),
        ),
    )
}

/// The declarations of a run of complex types.
pub open spec fn complex_types_text(
    complex_types: Seq<ComplexType>,
    namespace_definition: Seq<char>,
    context: ContextModel,
    prefix: Option<Seq<char>>,
) -> Outcome {
    join_outcomes(
        Seq::new(
            complex_types.len(),
            |i: int|
                complex_type_declaration_text(complex_types[i], namespace_definition, context, prefix),
        ),
    )
}

/// The declarations of a run of groups.
pub open spec fn groups_text(
    groups: Seq<Group>,
    namespace_definition: Seq<char>,
    context: ContextModel,
    prefix: Option<Seq<char>>,
) -> Outcome {
    join_outcomes(
        Seq::new(
            groups.len(),
            |i: int| group_declaration_text(groups[i], namespace_definition, context, prefix),
        ),
    )
}

/// The context for generating inside the module of named types: marked as
/// inside it, and holding the attribute groups that the schema defines.
pub open spec fn types_context(schema: Schema, context: ContextModel) -> ContextModel {
    ContextModel {
        in_sub_module: true,
        attribute_groups: group_models(schema.attribute_group@),
        ..context
    }
}

/// The module of named types: the simple types, the complex types and the
/// groups of the schema, generated inside that module.
pub open spec fn types_module_text(
    schema: Schema,
    namespace_definition: Seq<char>,
    context: ContextModel,
    prefix: Option<Seq<char>>,
) -> Outcome {
    let inside = types_context(schema, context);
    match simple_types_text(schema.simple_type@, namespace_definition, inside) {
        Err(f) => Err(f),
        Ok(simple) => match complex_types_text(
            schema.complex_type@,
            namespace_definition,
            inside,
            prefix,
        ) {
            Err(f) => Err(f),
            Ok(complex) => match groups_text(schema.group@, namespace_definition, inside, prefix) {
                Err(f) => Err(f),
                Ok(groups) => Ok("pub mod xml_schema_types { "@ + simple + complex + groups + "} "@),
            },
        },
    }
}

/// The unit of code for a schema: the module of named types, then the
/// declarations of the root elements. Nothing is generated unless
/// everything is.
pub open spec fn schema_text(schema: Schema, context: ContextModel, prefix: Option<Seq<char>>)
    -> Outcome {
    match namespace_definition_text(prefix, text_option(schema.target_namespace)) {
        Err(f) => Err(f),
        Ok(namespace_definition) => match elements_declarations_text(
            schema.elements@,
            namespace_definition,
            context,
            prefix,
        ) {
            Err(f) => Err(f),
            Ok(elements) => match types_module_text(schema, namespace_definition, context, prefix) {
                Err(f) => Err(f),
                Ok(types) => Ok(types + elements),
            },
        },
    }
}

/// Generates the declarations of a run of simple types.
pub fn implement_simple_types(
    simple_types: &Vec<SimpleType>,
    namespace_definition: &str,
    prefix: &Option<String>,
    context: &XsdContext,
) -> (r: Result<String, GenError>)
    ensures
        outcome(r) == simple_types_text(simple_types@, namespace_definition@, context@),
{
    let ghost parts = Seq::new(
        simple_types@.len(),
        |i: int| simple_type_declaration_text(simple_types@[i], namespace_definition@, context@),
    );
    let mut out = String::new();
    let mut i: usize = 0;
    proof {
        assert(parts.take(0) =~= Seq::empty());
    }
    while i < simple_types.len()
        invariant
            i <= simple_types.len(),
            parts == Seq::new(
                simple_types@.len(),
                |i: int|
                    simple_type_declaration_text(simple_types@[i], namespace_definition@, context@),
            ),
            join_outcomes(parts.take(i as int)) == Ok::<Seq<char>, Failure>(out@),
        decreases simple_types.len() - i,
    {
        proof {
            lemma_join_step(parts, i as int);
        }
        match simple_types[i].implement(namespace_definition, prefix, context) {
            Ok(text) => {
                out.append(text.as_str());
            },
            Err(e) => {
                proof {
                    lemma_join_fails(parts, i + 1);
                }
                return Err(e);
            },
        }
        i = i + 1;
    }
    proof {
        assert(parts.take(i as int) == parts);
    }
    Ok(out)
}

/// Generates the declarations of a run of complex types.
pub fn implement_complex_types(
    complex_types: &Vec<ComplexType>,
    namespace_definition: &str,
    prefix: &Option<String>,
    context: &XsdContext,
) -> (r: Result<String, GenError>)
    ensures
        outcome(r) == complex_types_text(
            complex_types@,
            namespace_definition@,
            context@,
            text_option(*prefix),
        ),
{
    let ghost parts = Seq::new(
        complex_types@.len(),
        |i: int|
            complex_type_declaration_text(
                complex_types@[i],
                namespace_definition@,
                context@,
                text_option(*prefix),
            ),
    );
    let mut out = String::new();
    let mut i: usize = 0;
    proof {
        assert(parts.take(0) =~= Seq::empty());
    }
    while i < complex_types.len()
        invariant
            i <= complex_types.len(),
            parts == Seq::new(
                complex_types@.len(),
                |i: int|
                    complex_type_declaration_text(
                        complex_types@[i],
                        namespace_definition@,
                        context@,
                        text_option(*prefix),
                    ),
            ),
            join_outcomes(parts.take(i as int)) == Ok::<Seq<char>, Failure>(out@),
        decreases complex_types.len() - i,
    {
        proof {
            lemma_join_step(parts, i as int);
        }
        match complex_types[i].implement(namespace_definition, prefix, context) {
            Ok(text) => {
                out.append(text.as_str());
            },
            Err(e) => {
                proof {
                    lemma_join_fails(parts, i + 1);
                }
                return Err(e);
            },
        }
        i = i + 1;
    }
    proof {
        assert(parts.take(i as int) == parts);
    }
    Ok(out)
}

/// Generates the declarations of a run of groups.
pub fn implement_groups(
    groups: &Vec<Group>,
    namespace_definition: &str,
    prefix: &Option<String>,
    context: &XsdContext,
) -> (r: Result<String, GenError>)
    ensures
        outcome(r) == groups_text(groups@, namespace_definition@, context@, text_option(*prefix)),
{
    let ghost parts = Seq::new(
        groups@.len(),
        |i: int|
            group_declaration_text(groups@[i], namespace_definition@, context@, text_option(*prefix)),
    );
    let mut out = String::new();
    let mut i: usize = 0;
    proof {
        assert(parts.take(0) =~= Seq::empty());
    }
    while i < groups.len()
        invariant
            i <= groups.len(),
            parts == Seq::new(
                groups@.len(),
                |i: int|
                    group_declaration_text(
                        groups@[i],
                        namespace_definition@,
                        context@,
                        text_option(*prefix),
                    ),
            ),
            join_outcomes(parts.take(i as int)) == Ok::<Seq<char>, Failure>(out@),
        decreases groups.len() - i,
    {
        proof {
            lemma_join_step(parts, i as int);
        }
        match groups[i].implement(namespace_definition, prefix, context) {
            Ok(text) => {
                out.append(text.as_str());
            },
            Err(e) => {
                proof {
                    lemma_join_fails(parts, i + 1);
                }
                return Err(e);
            },
        }
        i = i + 1;
    }
    proof {
        assert(parts.take(i as int) == parts);
    }
    Ok(out)
}

impl Schema {
    /// Generates the unit of code for this schema: the module of named
    /// types, then the declarations of the root elements.
    pub fn implement(
        &self,
        _namespace_definition: &str,
        target_prefix: &Option<String>,
        context: &XsdContext,
    ) -> (r: Result<String, GenError>)
        ensures
            outcome(r) == schema_text(*self, context@, text_option(*target_prefix)),
    {
        let namespace_definition = generate_namespace_definition(
            target_prefix,
            &self.target_namespace,
        )?;
        let elements = implement_declarations(
            &self.elements,
            namespace_definition.as_str(),
            target_prefix,
            context,
        )?;
        let types = self.types_module(namespace_definition.as_str(), target_prefix, context)?;
        let mut out = types;
        out.append(elements.as_str());
        Ok(out)
    }

    /// Generates the module of named types, with a copy of the context that
    /// is marked as inside that module and holds the schema's attribute groups.
    pub fn types_module(
        &self,
        namespace_definition: &str,
        target_prefix: &Option<String>,
        context: &XsdContext,
    ) -> (r: Result<String, GenError>)
        ensures
            outcome(r) == types_module_text(
                *self,
                namespace_definition@,
                context@,
                text_option(*target_prefix),
            ),
    {
        let inside = context.fork(true).with_attribute_groups(&self.attribute_group);
        let simple = implement_simple_types(
            &self.simple_type,
            namespace_definition,
            target_prefix,
            &inside,
        )?;
        let complex = implement_complex_types(
            &self.complex_type,
            namespace_definition,
            target_prefix,
            &inside,
        )?;
        let groups = implement_groups(&self.group, namespace_definition, target_prefix, &inside)?;
        let mut out = "pub mod xml_schema_types { ".to_owned();
        out.append(simple.as_str());
        out.append(complex.as_str());
        out.append(groups.as_str());
        out.append("} ");
        Ok(out)
    }
}

} // verus!
