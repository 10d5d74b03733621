//! An element of a schema: the declaration it becomes at the top level and
//! the field it becomes inside a type.

use vstd::prelude::*;
use crate::annotation::{annotation_text, implement_annotation, Annotation};
use crate::complex_type::{complex_type_fields_text, content_forms, integrated_text, ComplexType};
use crate::error::{failure, outcome, ErrorKind, GenError, Outcome};
use crate::max_occurences::MaxOccurences;
use crate::naming::{
    dotted_struct_name, dotted_struct_name_of, field_name, field_name_of, quote_text,
    string_literal,
};
use crate::render::{
    multiplicity_of, prefix_argument, prefix_argument_text, widened, wrap_type, wrapped_text,
    Multiplicity, TYPES_MODULE, YASERDE_DERIVES,
};
use crate::rust_types_mapping::{names_builtin, type_text, RustTypesMapping};
use crate::simple_type::{simple_type_text, SimpleType};
use crate::text::text_option;
use crate::xsd_context::{ContextModel, XsdContext};

verus! {

#[derive(Default, Debug, PartialEq)]
pub struct Element {
    pub name: String,
    pub kind: Option<String>,
    pub refers: Option<String>,
    pub min_occurences: Option<u64>,
    pub max_occurences: Option<MaxOccurences>,
    pub complex_type: Option<ComplexType>,
    pub simple_type: Option<SimpleType>,
    pub annotation: Option<Annotation>,
}

/// Which of its four exclusive forms an element takes.
#[derive(Clone, Copy, Debug, PartialEq, Eq)]
pub enum ElementShape {
    /// An inline complex type.
    Complex,
    /// An inline simple type.
    Simple,
    /// The name of a type.
    Typed,
    /// A reference to another element.
    Reference,
}

/// The element that `element` refers to: none where the reference is absent or empty.
pub open spec fn refers_of(element: Element) -> Option<Seq<char>> {
    match element.refers {
        Some(name) if name@.len() > 0 => Some(name@),
        _ => None,
    }
}

/// The form an element takes: defined where exactly one of inline complex
/// type, inline simple type, type name and element reference is present.
pub open spec fn element_shape(element: Element) -> Option<ElementShape> {
    match (
        element.complex_type is Some,
        element.simple_type is Some,
        element.kind is Some,
        refers_of(element) is Some,
    ) {
        (true, false, false, false) => Some(ElementShape::Complex),
        (false, true, false, false) => Some(ElementShape::Simple),
        (false, false, true, false) => Some(ElementShape::Typed),
        (false, false, false, true) => Some(ElementShape::Reference),
        _ => None,
    }
}

/// How many of the four exclusive forms an element fills in.
pub open spec fn populated_forms(element: Element) -> nat {
    let complex: nat = if element.complex_type is Some { 1 } else { 0 };
    let simple: nat = if element.simple_type is Some { 1 } else { 0 };
    let typed: nat = if element.kind is Some { 1 } else { 0 };
    let reference: nat = if refers_of(element) is Some { 1 } else { 0 };
    complex + simple + typed + reference
}

/// The name under which an element appears in a document: its own, or that
/// of the element it refers to.
pub open spec fn element_label(element: Element) -> Seq<char> {
    if element.name@.len() > 0 {
        element.name@
    } else {
        match refers_of(element) {
            Some(name) => name,
            None => Seq::empty(),
        }
    }
}

/// The Rust type of an element's value, by its form.
pub open spec fn element_type_text(element: Element, context: ContextModel) -> Outcome {
    match (element.complex_type, element.simple_type, element.kind, refers_of(element)) {
        (Some(complex_type), None, None, None) => integrated_text(complex_type, element.name@),
        (None, Some(simple_type), None, None) => simple_type_text(simple_type, context),
        (None, None, Some(kind), None) => type_text(context, kind@),
        (None, None, None, Some(refers)) => type_text(context, refers),
        _ => Err(failure(ErrorKind::AmbiguousType, element.name@)),
    }
}

/// Whether an element names the schema's own `string` or `int` type, the
/// two types that are written without the path of the module of named types.
pub open spec fn has_plain_type(element: Element, context: ContextModel) -> bool {
    match element.kind {
        Some(kind) => names_builtin(context, kind@, "string"@) || names_builtin(
            context,
            kind@,
            "int"@,
        ),
        None => false,
    }
}

/// The path written before the type of an element's field: that of the
/// module of named types, unless generation is inside it or the element
/// names the schema's own `string` or `int`.
pub open spec fn element_module_text(element: Element, context: ContextModel) -> Seq<char> {
    if !context.in_sub_module && !has_plain_type(element, context) {
        TYPES_MODULE@
    } else {
        Seq::empty()
    }
}

/// The shape of an element's field inside a group that may repeat or be optional.
pub open spec fn element_multiplicity(element: Element, repeats: bool, optional: bool)
    -> Multiplicity {
    widened(multiplicity_of(element.min_occurences, element.max_occurences), repeats, optional)
}

/// The field that an element becomes inside a type. An element that fills
/// in none, or more than one, of its forms is a failure; one without a name
/// of its own or of a referred element becomes nothing.
pub open spec fn element_field_text(
    element: Element,
    context: ContextModel,
    prefix: Option<Seq<char>>,
    repeats: bool,
    optional: bool,
) -> Outcome {
    if element_shape(element) is None {
        Err(failure(ErrorKind::AmbiguousType, element.name@))
    } else if element.name@.len() == 0 && refers_of(element) is None {
        Ok(Seq::empty())
    } else {
        let shape = element_multiplicity(element, repeats, optional);
        match field_name_of(element_label(element), shape is Repeated) {
            Err(f) => Err(f),
            Ok(name) => match element_type_text(element, context) {
                Err(f) => Err(f),
                Ok(ty) => Ok(
                    "#[yaserde(rename="@ + string_literal(element_label(element))
                        + prefix_argument_text(prefix) + ")] pub "@ + name + ": "@ + wrapped_text(
                        shape,
                        element_module_text(element, context) + ty,
                    ) + " , "@,
                ),
            },
        }
    }
}

/// How the content of a typed element is tied to the element: as its text
/// where the type is the schema's string, else flattened into it.
pub open spec fn content_marker_text(context: ContextModel, kind: Seq<char>) -> Seq<char> {
    if names_builtin(context, kind, "string"@) {
        "text"@
    } else {
        "flatten"@
    }
}

/// The fields of the declaration of an element: its content where it names
/// a type, else the fields of its inline complex type. An inline type with
/// more than one kind of content is a failure that names the element.
pub open spec fn element_content_text(
    element: Element,
    context: ContextModel,
    prefix: Option<Seq<char>>,
) -> Outcome {
    match element.kind {
        Some(kind) => match type_text(context, kind@) {
            Err(f) => Err(f),
            Ok(ty) => Ok(
                "#[yaserde("@ + content_marker_text(context, kind@) + ")] pub content: "@
                    + TYPES_MODULE@ + ty + " , "@,
            ),
        },
        None => match element.complex_type {
            Some(complex_type) => if content_forms(complex_type) > 1 {
                Err(failure(ErrorKind::AmbiguousType, element.name@))
            } else {
                complex_type_fields_text(complex_type, context, prefix)
            },
            None => Ok(Seq::empty()),
        },
    }
}

/// The declaration that an element becomes at the top level.
pub open spec fn element_declaration_text(
    element: Element,
    namespace_definition: Seq<char>,
    context: ContextModel,
    prefix: Option<Seq<char>>,
) -> Outcome {
    match dotted_struct_name_of(element.name@) {
        Err(f) => Err(f),
        Ok(name) => if element_shape(element) is None {
            Err(failure(ErrorKind::AmbiguousType, element.name@))
        } else {
            match element_content_text(element, context, prefix) {
                Err(f) => Err(f),
                Ok(fields) => Ok(
                    annotation_text(element.annotation) + YASERDE_DERIVES@ + namespace_definition
                        + "pub struct "@ + name + " { "@ + fields + "} "@,
                ),
            }
        },
    }
}

/// The declaration that an element adds beside the type that holds it: its
/// own, where it has an inline complex type.
pub open spec fn element_subtype_text(
    element: Element,
    namespace_definition: Seq<char>,
    context: ContextModel,
    prefix: Option<Seq<char>>,
) -> Outcome {
    if element.complex_type is None {
        Ok(Seq::empty())
    } else {
        element_declaration_text(element, namespace_definition, context, prefix)
    }
}

/// An element takes a form exactly where it fills in one of the four; with
/// none or several, neither its field nor its declaration is generated.
pub proof fn lemma_element_shape_exclusive(
    element: Element,
    namespace_definition: Seq<char>,
    context: ContextModel,
    prefix: Option<Seq<char>>,
    repeats: bool,
    optional: bool,
)
    ensures
        element_shape(element) is Some <==> populated_forms(element) == 1,
        populated_forms(element) != 1 ==> element_field_text(
            element,
            context,
            prefix,
            repeats,
            optional,
        ) is Err,
        populated_forms(element) != 1 ==> element_declaration_text(
            element,
            namespace_definition,
            context,
            prefix,
        ) is Err,
{
}

impl Element {
    /// The element that this one refers to, where the reference is not empty.
    pub fn get_refers(&self) -> (r: Option<&str>)
        ensures
            match r {
                Some(name) => refers_of(*self) == Some(name@),
                None => refers_of(*self) is None,
            },
    {
        match &self.refers {
            Some(refers) => if refers.as_str().unicode_len() == 0 {
                None
            } else {
                Some(refers.as_str())
            },
            None => None,
        }
    }

    /// The form this element takes, where it fills in exactly one.
    pub fn shape(&self) -> (r: Option<ElementShape>)
        ensures
            r == element_shape(*self),
    {
        let refers = self.get_refers();
        match (
            self.complex_type.is_some(),
            self.simple_type.is_some(),
            self.kind.is_some(),
            refers.is_some(),
        ) {
            (true, false, false, false) => Some(ElementShape::Complex),
            (false, true, false, false) => Some(ElementShape::Simple),
            (false, false, true, false) => Some(ElementShape::Typed),
            (false, false, false, true) => Some(ElementShape::Reference),
            _ => None,
        }
    }

    /// The failure of an element that takes no single form.
    fn ambiguous(&self) -> (e: GenError)
        ensures
            e@ == failure(ErrorKind::AmbiguousType, self.name@),
    {
        GenError::new(ErrorKind::AmbiguousType, self.name.as_str())
    }

    /// Generates the declaration for this element at the top level.
    pub fn implement(
        &self,
        namespace_definition: &str,
        prefix: &Option<String>,
        context: &XsdContext,
    ) -> (r: Result<String, GenError>)
        ensures
            outcome(r) == element_declaration_text(
                *self,
                namespace_definition@,
                context@,
                text_option(*prefix),
            ),
    {
        let name = dotted_struct_name(self.name.as_str())?;
        if self.shape().is_none() {
            return Err(self.ambiguous());
        }
        let fields = match &self.kind {
            Some(kind) => {
                let ty = RustTypesMapping::get(context, kind.as_str())?;
                let mut fields = "#[yaserde(".to_owned();
                if RustTypesMapping::is_xs_string(context, kind.as_str()) {
                    fields.append("text");
                } else {
                    fields.append("flatten");
                }
                fields.append(")] pub content: ");
                fields.append(TYPES_MODULE);
                fields.append(ty.as_str());
                fields.append(" , ");
                fields
            },
            None => match &self.complex_type {
                Some(complex_type) => {
                    if !complex_type.has_single_content() {
                        return Err(self.ambiguous());
                    }
                    complex_type.get_field_implementation(context, prefix)?
                },
                None => String::new(),
            },
        };
        let mut out = implement_annotation(&self.annotation, namespace_definition, prefix, context);
        out.append(YASERDE_DERIVES);
        out.append(namespace_definition);
        out.append("pub struct ");
        out.append(name.as_str());
        out.append(" { ");
        out.append(fields.as_str());
        out.append("} ");
        Ok(out)
    }

    /// Generates the declaration that this element adds beside the type that
    /// holds it.
    pub fn get_subtypes_implementation(
        &self,
        namespace_definition: &str,
        prefix: &Option<String>,
        context: &XsdContext,
    ) -> (r: Result<String, GenError>)
        ensures
            outcome(r) == element_subtype_text(
                *self,
                namespace_definition@,
                context@,
                text_option(*prefix),
            ),
    {
        if self.complex_type.is_none() {
            return Ok(String::new());
        }
        self.implement(namespace_definition, prefix, context)
    }

    /// Generates the field for this element inside a sequence.
    pub fn get_field_implementation(&self, context: &XsdContext, prefix: &Option<String>) -> (r:
        Result<String, GenError>)
        ensures
            outcome(r) == element_field_text(*self, context@, text_option(*prefix), false, false),
    {
        self.field_in_group(context, prefix, false, false)
    }

    /// The Rust type of this element's value.
    pub fn rust_type(&self, context: &XsdContext, prefix: &Option<String>) -> (r: Result<
        String,
        GenError,
    >)
        ensures
            outcome(r) == element_type_text(*self, context@),
    {
        match (&self.complex_type, &self.simple_type, &self.kind, self.get_refers()) {
            (Some(complex_type), None, None, None) => complex_type.get_integrated_implementation(
                self.name.as_str(),
            ),
            (None, Some(simple_type), None, None) => simple_type.get_type_implementation(
                context,
                prefix,
            ),
            (None, None, Some(kind), None) => RustTypesMapping::get(context, kind.as_str()),
            (None, None, None, Some(refers)) => RustTypesMapping::get(context, refers),
            _ => Err(self.ambiguous()),
        }
    }

    /// Generates the field for this element inside a group that may itself
    /// repeat or be optional.
    pub fn field_in_group(
        &self,
        context: &XsdContext,
        prefix: &Option<String>,
        repeats: bool,
        optional: bool,
    ) -> (r: Result<String, GenError>)
        ensures
            outcome(r) == element_field_text(
                *self,
                context@,
                text_option(*prefix),
                repeats,
                optional,
            ),
    {
        if self.shape().is_none() {
            return Err(self.ambiguous());
        }
        let refers = self.get_refers();
        let named = self.name.as_str().unicode_len() > 0;
        if !named && refers.is_none() {
            return Ok(String::new());
        }
        let label: &str = if named {
            self.name.as_str()
        } else {
            match refers {
                Some(name) => name,
                None => "",
            }
        };
        let shape = Multiplicity::of(self.min_occurences, self.max_occurences).widen(
            repeats,
            optional,
        );
        let name = field_name(label, shape.is_repeated())?;
        let ty = self.rust_type(context, prefix)?;
        let plain = match &self.kind {
            Some(kind) => RustTypesMapping::is_xs_string(context, kind.as_str())
                || RustTypesMapping::is_xs_int(context, kind.as_str()),
            None => false,
        };
        let mut path = if !context.is_in_sub_module() && !plain {
            TYPES_MODULE.to_owned()
        } else {
            String::new()
        };
        path.append(ty.as_str());
        let wrapped = wrap_type(shape, path.as_str());
        let literal = quote_text(label);
        let argument = prefix_argument(prefix);
        let mut out = "#[yaserde(rename=".to_owned();
        out.append(literal.as_str());
        out.append(argument.as_str());
        out.append(")] pub ");
        out.append(name.as_str());
        out.append(": ");
        out.append(wrapped.as_str());
        out.append(" , ");
        Ok(out)
    }
}

} // verus!
