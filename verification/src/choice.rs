//! A choice between elements. Its children become fields that are optional
//! each on its own, or lists each on its own where the choice repeats: a
//! choice may have no name, so no enum could be declared for it. That only
//! one of the fields holds a value is left to the caller.

use vstd::prelude::*;
use crate::annotation::Annotation;
use crate::attribute::Attribute;
use crate::element::{element_field_text, element_multiplicity, Element};
use crate::error::{outcome, GenError, Outcome};
use crate::max_occurences::MaxOccurences;
use crate::render::{join_outcomes, multiplicity_of, Multiplicity};
use crate::sequence::{
    elements_declarations_text, elements_fields_text, elements_subtypes_text,
    implement_declarations, implement_fields, implement_subtypes,
};
use crate::text::text_option;
use crate::xsd_context::{ContextModel, XsdContext};

verus! {

#[derive(Default, Debug, PartialEq)]
pub struct Choice {
    pub id: Option<String>,
    pub attributes: Vec<Attribute>,
    pub min_occurences: Option<u64>,
    pub max_occurences: Option<MaxOccurences>,
    pub annotation: Option<Annotation>,
    pub element: Vec<Element>,
}

/// Whether a choice may be taken more than once.
pub open spec fn choice_repeats(choice: Choice) -> bool {
    ||| (choice.min_occurences matches Some(min) && min > 1)
    ||| choice.max_occurences == Some(MaxOccurences::Unbounded)
    ||| (choice.max_occurences matches Some(MaxOccurences::Number { value }) && value > 1)
}

/// The fields of a choice: one per child, each a list where the choice
/// repeats and optional where it does not.
pub open spec fn choice_fields_text(
    choice: Choice,
    context: ContextModel,
    prefix: Option<Seq<char>>,
) -> Outcome {
    elements_fields_text(
        choice.element@,
        context,
        prefix,
        choice_repeats(choice),
        !choice_repeats(choice),
    )
}

/// A choice that does not repeat, between two elements that do not repeat,
/// gives two fields, each optional and each made from its own element alone.
pub proof fn lemma_choice_independence(
    choice: Choice,
    context: ContextModel,
    prefix: Option<Seq<char>>,
)
    requires
        choice.element@.len() == 2,
        !choice_repeats(choice),
        !(multiplicity_of(choice.element@[0].min_occurences, choice.element@[0].max_occurences)
            is Repeated),
        !(multiplicity_of(choice.element@[1].min_occurences, choice.element@[1].max_occurences)
            is Repeated),
    ensures
        element_multiplicity(choice.element@[0], false, true) == Multiplicity::Optional,
        element_multiplicity(choice.element@[1], false, true) == Multiplicity::Optional,
        choice_fields_text(choice, context, prefix) == match element_field_text(
            choice.element@[0],
            context,
            prefix,
            false,
            true,
        ) {
            Err(f) => Err(f),
            Ok(first) => match element_field_text(choice.element@[1], context, prefix, false, true) {
                Err(f) => Err(f),
                Ok(second) => Ok(first + second),
            },
        },
{
    let parts = Seq::new(
        choice.element@.len(),
        |i: int| element_field_text(choice.element@[i], context, prefix, false, true),
    );
    crate::render::lemma_join_step(parts, 0);
    crate::render::lemma_join_step(parts, 1);
    assert(parts.take(0) =~= Seq::empty());
    assert(parts.take(2) == parts);
    assert(join_outcomes(parts.take(0)) == Ok::<Seq<char>, crate::error::Failure>(Seq::empty()));
    match parts[0] {
        Ok(first) => {
            assert(Seq::<char>::empty() + first =~= first);
        },
        Err(_) => {},
    }
}

impl Choice {
    /// Whether this choice may be taken more than once.
    pub fn repeats(&self) -> (r: bool)
        ensures
            r == choice_repeats(*self),
    {
        let by_min = match self.min_occurences {
            Some(min) => min > 1,
            None => false,
        };
        let by_max = match self.max_occurences {
            Some(MaxOccurences::Unbounded) => true,
            Some(MaxOccurences::Number { value }) => value > 1,
            None => false,
        };
        by_min || by_max
    }

    /// Generates the top-level declarations of the children of this choice.
    pub fn implement(
        &self,
        namespace_definition: &str,
        prefix: &Option<String>,
        context: &XsdContext,
    ) -> (r: Result<String, GenError>)
        ensures
            outcome(r) == elements_declarations_text(
                self.element@,
                namespace_definition@,
                context@,
                text_option(*prefix),
            ),
    {
        implement_declarations(&self.element, namespace_definition, prefix, context)
    }

    /// Generates the declarations that the children of this choice add.
    pub fn get_sub_types_implementation(
        &self,
        context: &XsdContext,
        namespace_definition: &str,
        prefix: &Option<String>,
    ) -> (r: Result<String, GenError>)
        ensures
            outcome(r) == elements_subtypes_text(
                self.element@,
                namespace_definition@,
                context@,
                text_option(*prefix),
            ),
    {
        implement_subtypes(&self.element, namespace_definition, prefix, context)
    }

    /// Generates the fields of this choice: independent lists where it
    /// repeats, independent options where it does not.
    pub fn get_field_implementation(&self, context: &XsdContext, prefix: &Option<String>) -> (r:
        Result<String, GenError>)
        ensures
            outcome(r) == choice_fields_text(*self, context@, text_option(*prefix)),
    {
        let multiple = self.repeats();
        let optional = !multiple;
        implement_fields(&self.element, context, prefix, multiple, optional)
    }
}

} // verus!
