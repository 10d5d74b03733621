//! Pieces shared by the generators: the shape of a field, the fixed texts of
//! a declaration, and how the texts of a run of items are joined.

use vstd::prelude::*;
use crate::error::Outcome;
use crate::max_occurences::MaxOccurences;
use crate::naming::{quote_text, string_literal};

verus! {

/// The derives of a declaration that the XML runtime reads and writes.
pub const YASERDE_DERIVES: &'static str =
    "#[derive(Clone, Debug, Default, PartialEq, yaserde_derive::YaDeserialize, yaserde_derive::YaSerialize)] ";

/// The derives of a declaration for a named group.
pub const SERDE_DERIVES: &'static str =
    "#[derive(Clone, Debug, Default, PartialEq, serde::Deserialize, serde::Serialize)] ";

/// The module that holds the named types of a schema, as a path prefix.
pub const TYPES_MODULE: &'static str = "xml_schema_types::";

/// How often a field's value occurs.
#[derive(Clone, Copy, Debug, PartialEq, Eq)]
pub enum Multiplicity {
    /// Exactly once: the bare type.
    Required,
    /// At most once: an `Option`.
    Optional,
    /// Any number of times: a `Vec`, whose emptiness already stands for absence.
    Repeated,
}

/// The shape of a field from its occurrence bounds, each of which defaults
/// to one: repeated where an upper bound is given and is not one, else
/// optional where the lower bound is zero, else required.
pub open spec fn multiplicity_of(min: Option<u64>, max: Option<MaxOccurences>) -> Multiplicity {
    if max is Some && max != Some(MaxOccurences::Number { value: 1 }) {
        Multiplicity::Repeated
    } else if min == Some(0u64) {
        Multiplicity::Optional
    } else {
        Multiplicity::Required
    }
}

/// The shape of a field inside a group that may itself repeat or be optional.
pub open spec fn widened(own: Multiplicity, repeats: bool, optional: bool) -> Multiplicity {
    if repeats || own is Repeated {
        Multiplicity::Repeated
    } else if optional || own is Optional {
        Multiplicity::Optional
    } else {
        Multiplicity::Required
    }
}

impl Multiplicity {
    /// The shape of a field from its occurrence bounds.
    pub fn of(min: Option<u64>, max: Option<MaxOccurences>) -> (m: Multiplicity)
        ensures
            m == multiplicity_of(min, max),
    {
        let repeated = match max {
            Some(MaxOccurences::Number { value }) => value != 1,
            Some(MaxOccurences::Unbounded) => true,
            None => false,
        };
        if repeated {
            Multiplicity::Repeated
        } else {
            match min {
                Some(n) => if n == 0 {
                    Multiplicity::Optional
                } else {
                    Multiplicity::Required
                },
                None => Multiplicity::Required,
            }
        }
    }

    /// This shape inside a group that may itself repeat or be optional.
    pub fn widen(self, repeats: bool, optional: bool) -> (m: Multiplicity)
        ensures
            m == widened(self, repeats, optional),
    {
        match self {
            Multiplicity::Repeated => Multiplicity::Repeated,
            Multiplicity::Optional => if repeats {
                Multiplicity::Repeated
            } else {
                Multiplicity::Optional
            },
            Multiplicity::Required => if repeats {
                Multiplicity::Repeated
            } else if optional {
                Multiplicity::Optional
            } else {
                Multiplicity::Required
            },
        }
    }

    /// Whether a value may occur more than once.
    pub fn is_repeated(self) -> (r: bool)
        ensures
            r == (self is Repeated),
    {
        match self {
            Multiplicity::Repeated => true,
            _ => false,
        }
    }
}

/// The four classes of occurrence bounds and the shape of each. Absent
/// bounds count as one. Bounds of one and one give a required field; zero and
/// one an optional field; an upper bound above one, or none at all, a
/// repeated field whatever the lower bound, whose type is the list of
/// `inner` and never an option around it.
pub proof fn lemma_multiplicity_table(
    min: Option<u64>,
    max: Option<MaxOccurences>,
    inner: Seq<char>,
)
    ensures
        (min is None || min == Some(1u64)) && (max is None || max == Some(
            MaxOccurences::Number { value: 1 },
        )) ==> multiplicity_of(min, max) == Multiplicity::Required,
        min == Some(0u64) && (max is None || max == Some(MaxOccurences::Number { value: 1 }))
            ==> multiplicity_of(min, max) == Multiplicity::Optional,
        max == Some(MaxOccurences::Unbounded) ==> multiplicity_of(min, max)
            == Multiplicity::Repeated,
        (max matches Some(MaxOccurences::Number { value }) && value > 1) ==> multiplicity_of(
            min,
            max,
        ) == Multiplicity::Repeated,
        multiplicity_of(min, max) is Repeated ==> wrapped_text(multiplicity_of(min, max), inner)
            == "Vec<"@ + inner + ">"@,
{
}

/// A type as the type of a field of the given shape.
pub open spec fn wrapped_text(m: Multiplicity, inner: Seq<char>) -> Seq<char> {
    match m {
        Multiplicity::Required => inner,
        Multiplicity::Optional => "Option<"@ + inner + ">"@,
        Multiplicity::Repeated => "Vec<"@ + inner + ">"@,
    }
}

/// Writes a type as the type of a field of the given shape.
pub fn wrap_type(m: Multiplicity, inner: &str) -> (out: String)
    ensures
        out@ == wrapped_text(m, inner@),
{
    match m {
        Multiplicity::Required => inner.to_owned(),
        Multiplicity::Optional => {
            let mut out = "Option<".to_owned();
            out.append(inner);
            out.append(">");
            out
        },
        Multiplicity::Repeated => {
            let mut out = "Vec<".to_owned();
            out.append(inner);
            out.append(">");
            out
        },
    }
}

/// The attribute argument that carries the output prefix, where one is given.
pub open spec fn prefix_argument_text(prefix: Option<Seq<char>>) -> Seq<char> {
    match prefix {
        Some(p) => ", prefix="@ + string_literal(p),
        None => Seq::empty(),
    }
}

/// Writes the attribute argument that carries the output prefix.
pub fn prefix_argument(prefix: &Option<String>) -> (out: String)
    ensures
        out@ == prefix_argument_text(crate::text::text_option(*prefix)),
{
    match prefix {
        Some(p) => {
            let mut out = ", prefix=".to_owned();
            let literal = quote_text(p.as_str());
            out.append(literal.as_str());
            out
        },
        None => String::new(),
    }
}

/// The texts of a run of items, joined in order; the first failure wins.
pub open spec fn join_outcomes(parts: Seq<Outcome>) -> Outcome
    decreases parts.len(),
{
    if parts.len() == 0 {
        Ok(Seq::empty())
    } else {
        match join_outcomes(parts.drop_last()) {
            Err(f) => Err(f),
            Ok(text) => match parts.last() {
                Err(f) => Err(f),
                Ok(more) => Ok(text + more),
            },
        }
    }
}

/// Joining one more item: the step of every loop that joins texts.
pub(crate) proof fn lemma_join_step(parts: Seq<Outcome>, i: int)
    requires
        0 <= i < parts.len(),
    ensures
        join_outcomes(parts.take(i + 1)) == match join_outcomes(parts.take(i)) {
            Err(f) => Err(f),
            Ok(text) => match parts[i] {
                Err(f) => Err(f),
                Ok(more) => Ok(text + more),
            },
        },
{
    assert(parts.take(i + 1).drop_last() == parts.take(i));
    assert(parts.take(i + 1).last() == parts[i]);
}

/// A failure among the first items is the failure of the whole run.
pub(crate) proof fn lemma_join_fails(parts: Seq<Outcome>, i: int)
    requires
        0 <= i <= parts.len(),
        join_outcomes(parts.take(i)) is Err,
    ensures
        join_outcomes(parts) == join_outcomes(parts.take(i)),
    decreases parts.len() - i,
{
    if i < parts.len() {
        lemma_join_step(parts, i);
        lemma_join_fails(parts, i + 1);
    } else {
        assert(parts.take(i) == parts);
    }
}

} // verus!
