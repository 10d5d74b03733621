//! An attribute of a complex type, and the field it becomes.

use vstd::prelude::*;
use crate::error::{failure, outcome, ErrorKind, GenError, Outcome};
use crate::naming::{field_name, field_name_of, quote_text, string_literal};
use crate::render::{
    join_outcomes, lemma_join_fails, lemma_join_step, wrap_type, wrapped_text, Multiplicity,
};
use crate::rust_types_mapping::{type_text, RustTypesMapping};
use crate::simple_type::{simple_type_text, SimpleType};
use crate::text::same_text;
use crate::xsd_context::{ContextModel, XsdContext};

verus! {

#[derive(Clone, Default, Debug, PartialEq)]
pub struct Attribute {
    pub name: Option<String>,
    pub kind: Option<String>,
    pub required: Required,
    pub reference: Option<String>,
    pub simple_type: Option<SimpleType>,
}

/// Whether an attribute must be present.
#[derive(Clone, Copy, Debug, PartialEq, Eq)]
pub enum Required {
    Optional,
    Required,
}

impl Default for Required {
    /// An attribute that does not say is optional.
    fn default() -> (r: Self)
        ensures
            r == Required::Optional,
    {
        Required::Optional
    }
}

/// What the literal `optional` or `required` denotes; no other text is a use.
pub open spec fn required_of(s: Seq<char>) -> Option<Required> {
    if s == "optional"@ {
        Some(Required::Optional)
    } else if s == "required"@ {
        Some(Required::Required)
    } else {
        None
    }
}

impl Required {
    /// Reads the literal form, which is matched exactly.
    pub fn parse(s: &str) -> (r: Option<Required>)
        ensures
            r == required_of(s@),
    {
        if same_text(s, "optional") {
            Some(Required::Optional)
        } else if same_text(s, "required") {
            Some(Required::Required)
        } else {
            None
        }
    }

    /// The shape of the field for an attribute of this use.
    pub open spec fn shape(self) -> Multiplicity {
        match self {
            Required::Optional => Multiplicity::Optional,
            Required::Required => Multiplicity::Required,
        }
    }

    /// The shape of the field for an attribute of this use.
    pub fn multiplicity(self) -> (m: Multiplicity)
        ensures
            m == self.shape(),
    {
        match self {
            Required::Optional => Multiplicity::Optional,
            Required::Required => Multiplicity::Required,
        }
    }
}

/// The name an attribute is reported under: its own, or none.
pub open spec fn attribute_subject(attribute: Attribute) -> Seq<char> {
    match attribute.name {
        Some(name) => name@,
        None => Seq::empty(),
    }
}

/// The Rust type of an attribute, which must say exactly one of a type
/// name, a reference and an inline simple type.
pub open spec fn attribute_type_text(attribute: Attribute, context: ContextModel) -> Outcome {
    match (attribute.reference, attribute.kind, attribute.simple_type) {
        (None, Some(kind), None) => type_text(context, kind@),
        (Some(reference), None, None) => type_text(context, reference@),
        (None, None, Some(simple_type)) => simple_type_text(simple_type, context),
        _ => Err(failure(ErrorKind::AmbiguousType, attribute_subject(attribute))),
    }
}

/// Whether an attribute says exactly one of a type name, a reference and an
/// inline simple type.
pub open spec fn attribute_is_well_shaped(attribute: Attribute) -> bool {
    match (attribute.reference, attribute.kind, attribute.simple_type) {
        (None, Some(_), None) => true,
        (Some(_), None, None) => true,
        (None, None, Some(_)) => true,
        _ => false,
    }
}

/// The arguments of the field's marker: `attribute`, and the schema's name
/// where the field's name differs from it.
pub open spec fn attribute_marker_text(name: Seq<char>, raw: Seq<char>) -> Seq<char> {
    if name == raw {
        "attribute"@
    } else {
        "attribute, rename="@ + string_literal(raw)
    }
}

/// The field that an attribute becomes. An attribute of ambiguous shape is a
/// failure; one without a name becomes nothing.
pub open spec fn attribute_text(attribute: Attribute, context: ContextModel) -> Outcome {
    if !attribute_is_well_shaped(attribute) {
        Err(failure(ErrorKind::AmbiguousType, attribute_subject(attribute)))
    } else {
        match attribute.name {
            None => Ok(Seq::empty()),
            Some(raw) => match field_name_of(raw@, false) {
                Err(f) => Err(f),
                Ok(name) => match attribute_type_text(attribute, context) {
                    Err(f) => Err(f),
                    Ok(ty) => Ok(
                        "#[yaserde("@ + attribute_marker_text(name, raw@) + ")] pub "@ + name
                            + ": "@ + wrapped_text(attribute.required.shape(), ty) + " , "@,
                    ),
                },
            },
        }
    }
}

/// The fields of a run of attributes, in order.
pub open spec fn attributes_text(attributes: Seq<Attribute>, context: ContextModel) -> Outcome {
    join_outcomes(Seq::new(attributes.len(), |i: int| attribute_text(attributes[i], context)))
}

impl Attribute {
    /// A copy of this attribute.
    pub fn duplicate(&self) -> (copy: Attribute)
        ensures
            copy == *self,
    {
        Attribute {
            name: match &self.name {
                Some(name) => Some(name.clone()),
                None => None,
            },
            kind: match &self.kind {
                Some(kind) => Some(kind.clone()),
                None => None,
            },
            required: self.required,
            reference: match &self.reference {
                Some(reference) => Some(reference.clone()),
                None => None,
            },
            simple_type: match &self.simple_type {
                Some(simple_type) => Some(simple_type.duplicate()),
                None => None,
            },
        }
    }

    /// Generates the field for this attribute.
    pub fn implement(
        &self,
        _namespace_definition: &str,
        prefix: &Option<String>,
        context: &XsdContext,
    ) -> (r: Result<String, GenError>)
        ensures
            outcome(r) == attribute_text(*self, context@),
    {
        let well_shaped = match (&self.reference, &self.kind, &self.simple_type) {
            (None, Some(_), None) => true,
            (Some(_), None, None) => true,
            (None, None, Some(_)) => true,
            _ => false,
        };
        if !well_shaped {
            return Err(self.ambiguous());
        }
        let raw = match &self.name {
            None => {
                return Ok(String::new());
            },
            Some(raw) => raw,
        };
        let name = field_name(raw.as_str(), false)?;
        let ty = self.rust_type(context, prefix)?;
        let marker = if same_text(name.as_str(), raw.as_str()) {
            "attribute".to_owned()
        } else {
            let mut marker = "attribute, rename=".to_owned();
            let literal = quote_text(raw.as_str());
            marker.append(literal.as_str());
            marker
        };
        let wrapped = wrap_type(self.required.multiplicity(), ty.as_str());
        let mut out = "#[yaserde(".to_owned();
        out.append(marker.as_str());
        out.append(")] pub ");
        out.append(name.as_str());
        out.append(": ");
        out.append(wrapped.as_str());
        out.append(" , ");
        Ok(out)
    }

    /// The failure of an attribute of ambiguous shape.
    fn ambiguous(&self) -> (e: GenError)
        ensures
            e@ == failure(ErrorKind::AmbiguousType, attribute_subject(*self)),
    {
        match &self.name {
            Some(name) => GenError::new(ErrorKind::AmbiguousType, name.as_str()),
            None => GenError::bare(ErrorKind::AmbiguousType),
        }
    }

    /// The Rust type of this attribute.
    pub fn rust_type(&self, context: &XsdContext, prefix: &Option<String>) -> (r: Result<
        String,
        GenError,
    >)
        ensures
            outcome(r) == attribute_type_text(*self, context@),
    {
        match (&self.reference, &self.kind, &self.simple_type) {
            (None, Some(kind), None) => RustTypesMapping::get(context, kind.as_str()),
            (Some(reference), None, None) => RustTypesMapping::get(context, reference.as_str()),
            (None, None, Some(simple_type)) => simple_type.get_type_implementation(
                context,
                prefix,
            ),
            _ => Err(self.ambiguous()),
        }
    }
}

/// Generates the fields of a run of attributes, in order.
pub fn implement_attributes(
    attributes: &Vec<Attribute>,
    namespace_definition: &str,
    prefix: &Option<String>,
    context: &XsdContext,
) -> (r: Result<String, GenError>)
    ensures
        outcome(r) == attributes_text(attributes@, context@),
{
    let ghost parts = Seq::new(
        attributes@.len(),
        |i: int| attribute_text(attributes@[i], context@),
    );
    let mut out = String::new();
    let mut i: usize = 0;
    proof {
        assert(parts.take(0) =~= Seq::empty());
    }
    while i < attributes.len()
        invariant
            i <= attributes.len(),
            parts == Seq::new(attributes@.len(), |i: int| attribute_text(attributes@[i], context@)),
            join_outcomes(parts.take(i as int)) == Ok::<Seq<char>, crate::error::Failure>(out@),
        decreases attributes.len() - i,
    {
        proof {
            lemma_join_step(parts, i as int);
        }
        match attributes[i].implement(namespace_definition, prefix, context) {
            Ok(text) => {
                out.append(text.as_str());
            },
            Err(e) => {
                proof {
                    lemma_join_fails(parts, i + 1);
                }
                return Err(e);
            },
        }
        i = i + 1;
    }
    proof {
        assert(parts.take(i as int) == parts);
    }
    Ok(out)
}

} // verus!
