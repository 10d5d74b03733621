//! A sequence of elements, and the generators that walk a run of elements.

use vstd::prelude::*;
use crate::element::{
    element_declaration_text, element_field_text, element_subtype_text, Element,
};
use crate::error::{outcome, Failure, GenError, Outcome};
use crate::render::{join_outcomes, lemma_join_fails, lemma_join_step};
use crate::text::text_option;
use crate::xsd_context::{ContextModel, XsdContext};

verus! {

#[derive(Default, Debug, PartialEq)]
pub struct Sequence {
    pub elements: Vec<Element>,
}

/// The fields of a run of elements: one per element, in document order.
pub open spec fn elements_fields_text(
    elements: Seq<Element>,
    context: ContextModel,
    prefix: Option<Seq<char>>,
    repeats: bool,
    optional: bool,
) -> Outcome {
    join_outcomes(
        Seq::new(
            elements.len(),
            |i: int| element_field_text(elements[i], context, prefix, repeats, optional),
        ),
    )
}

/// The declarations that a run of elements adds beside the type that holds them.
pub open spec fn elements_subtypes_text(
    elements: Seq<Element>,
    namespace_definition: Seq<char>,
    context: ContextModel,
    prefix: Option<Seq<char>>,
) -> Outcome {
    join_outcomes(
        Seq::new(
            elements.len(),
            |i: int| element_subtype_text(elements[i], namespace_definition, context, prefix),
        ),
    )
}

/// The top-level declarations of a run of elements.
pub open spec fn elements_declarations_text(
    elements: Seq<Element>,
    namespace_definition: Seq<char>,
    context: ContextModel,
    prefix: Option<Seq<char>>,
) -> Outcome {
    join_outcomes(
        Seq::new(
            elements.len(),
            |i: int| element_declaration_text(elements[i], namespace_definition, context, prefix),
        ),
    )
}

/// The fields of a sequence: one per child, in document order.
pub open spec fn sequence_fields_text(
    sequence: Sequence,
    context: ContextModel,
    prefix: Option<Seq<char>>,
) -> Outcome {
    elements_fields_text(sequence.elements@, context, prefix, false, false)
}

/// The declarations that the children of a sequence add.
pub open spec fn sequence_subtypes_text(
    sequence: Sequence,
    namespace_definition: Seq<char>,
    context: ContextModel,
    prefix: Option<Seq<char>>,
) -> Outcome {
    elements_subtypes_text(sequence.elements@, namespace_definition, context, prefix)
}

/// Generates the fields of a run of elements inside a group that may repeat
/// or be optional.
pub fn implement_fields(
    elements: &Vec<Element>,
    context: &XsdContext,
    prefix: &Option<String>,
    repeats: bool,
    optional: bool,
) -> (r: Result<String, GenError>)
    ensures
        outcome(r) == elements_fields_text(
            elements@,
            context@,
            text_option(*prefix),
            repeats,
            optional,
        ),
{
    let ghost parts = Seq::new(
        elements@.len(),
        |i: int| element_field_text(elements@[i], context@, text_option(*prefix), repeats, optional),
    );
    let mut out = String::new();
    let mut i: usize = 0;
    proof {
        assert(parts.take(0) =~= Seq::empty());
    }
    while i < elements.len()
        invariant
            i <= elements.len(),
            parts == Seq::new(
                elements@.len(),
                |i: int|
                    element_field_text(
                        elements@[i],
                        context@,
                        text_option(*prefix),
                        repeats,
                        optional,
                    ),
            ),
            join_outcomes(parts.take(i as int)) == Ok::<Seq<char>, Failure>(out@),
        decreases elements.len() - i,
    {
        proof {
            lemma_join_step(parts, i as int);
        }
        match elements[i].field_in_group(context, prefix, repeats, optional) {
            Ok(text) => {
                out.append(text.as_str());
            },
            Err(e) => {
                proof {
                    lemma_join_fails(parts, i + 1);
                }
                return Err(e);
            },
        }
        i = i + 1;
    }
    proof {
        assert(parts.take(i as int) == parts);
    }
    Ok(out)
}

/// Generates the declarations that a run of elements adds beside the type
/// that holds them.
pub fn implement_subtypes(
    elements: &Vec<Element>,
    namespace_definition: &str,
    prefix: &Option<String>,
    context: &XsdContext,
) -> (r: Result<String, GenError>)
    ensures
        outcome(r) == elements_subtypes_text(
            elements@,
            namespace_definition@,
            context@,
            text_option(*prefix),
        ),
{
    let ghost parts = Seq::new(
        elements@.len(),
        |i: int|
            element_subtype_text(elements@[i], namespace_definition@, context@, text_option(*prefix)),
    );
    let mut out = String::new();
    let mut i: usize = 0;
    proof {
        assert(parts.take(0) =~= Seq::empty());
    }
    while i < elements.len()
        invariant
            i <= elements.len(),
            parts == Seq::new(
                elements@.len(),
                |i: int|
                    element_subtype_text(
                        elements@[i],
                        namespace_definition@,
                        context@,
                        text_option(*prefix),
                    ),
            ),
            join_outcomes(parts.take(i as int)) == Ok::<Seq<char>, Failure>(out@),
        decreases elements.len() - i,
    {
        proof {
            lemma_join_step(parts, i as int);
        }
        match elements[i].get_subtypes_implementation(namespace_definition, prefix, context) {
            Ok(text) => {
                out.append(text.as_str());
            },
            Err(e) => {
                proof {
                    lemma_join_fails(parts, i + 1);
                }
                return Err(e);
            },
        }
        i = i + 1;
    }
    proof {
        assert(parts.take(i as int) == parts);
    }
    Ok(out)
}

/// Generates the top-level declarations of a run of elements.
pub fn implement_declarations(
    elements: &Vec<Element>,
    namespace_definition: &str,
    prefix: &Option<String>,
    context: &XsdContext,
) -> (r: Result<String, GenError>)
    ensures
        outcome(r) == elements_declarations_text(
            elements@,
            namespace_definition@,
            context@,
            text_option(*prefix),
        ),
{
    let ghost parts = Seq::new(
        elements@.len(),
        |i: int|
            element_declaration_text(
                elements@[i],
                namespace_definition@,
                context@,
                text_option(*prefix),
            ),
    );
    let mut out = String::new();
    let mut i: usize = 0;
    proof {
        assert(parts.take(0) =~= Seq::empty());
    }
    while i < elements.len()
        invariant
            i <= elements.len(),
            parts == Seq::new(
                elements@.len(),
                |i: int|
                    element_declaration_text(
                        elements@[i],
                        namespace_definition@,
                        context@,
                        text_option(*prefix),
                    ),
            ),
            join_outcomes(parts.take(i as int)) == Ok::<Seq<char>, Failure>(out@),
        decreases elements.len() - i,
    {
        proof {
            lemma_join_step(parts, i as int);
        }
        match elements[i].implement(namespace_definition, prefix, context) {
            Ok(text) => {
                out.append(text.as_str());
            },
            Err(e) => {
                proof {
                    lemma_join_fails(parts, i + 1);
                }
                return Err(e);
            },
        }
        i = i + 1;
    }
    proof {
        assert(parts.take(i as int) == parts);
    }
    Ok(out)
}

impl Sequence {
    /// Generates the fields of this sequence, one per child, in document order.
    pub fn implement(
        &self,
        _namespace_definition: &str,
        prefix: &Option<String>,
        context: &XsdContext,
    ) -> (r: Result<String, GenError>)
        ensures
            outcome(r) == sequence_fields_text(*self, context@, text_option(*prefix)),
    {
        implement_fields(&self.elements, context, prefix, false, false)
    }

    /// Generates the declarations that the children of this sequence add.
    pub fn get_sub_types_implementation(
        &self,
        context: &XsdContext,
        namespace_definition: &str,
        prefix: &Option<String>,
    ) -> (r: Result<String, GenError>)
        ensures
            outcome(r) == sequence_subtypes_text(
                *self,
                namespace_definition@,
                context@,
                text_option(*prefix),
            ),
    {
        implement_subtypes(&self.elements, namespace_definition, prefix, context)
    }

    /// Generates the fields of this sequence, one per child, in document order.
    pub fn get_field_implementation(&self, context: &XsdContext, prefix: &Option<String>) -> (r:
        Result<String, GenError>)
        ensures
            outcome(r) == sequence_fields_text(*self, context@, text_option(*prefix)),
    {
        implement_fields(&self.elements, context, prefix, false, false)
    }
}

} // verus!
