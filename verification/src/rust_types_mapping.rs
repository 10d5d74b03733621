//! From the name of a schema type to the Rust type that stands for it.

use vstd::prelude::*;
use crate::error::{failure, outcome, ErrorKind, GenError, Outcome};
use crate::naming::{check_type_path, is_type_path, to_upper_camel_case, upper_camel_case};
use crate::text::{
    find_char, head, lemma_position_found, position, position_from, replace_char, replaced,
    same_text, tail,
};
use crate::xsd_context::{ContextModel, XsdContext};

verus! {

/// A scalar type that XML Schema defines and Rust has a type for.
#[derive(Clone, Copy, Debug, PartialEq, Eq)]
pub enum Primitive {
    Bool,
    Int8,
    UInt8,
    Int16,
    UInt16,
    Int32,
    UInt32,
    Int64,
    UInt64,
    Float32,
    Float64,
    Text,
}

/// The primitive that a local name of the XML Schema namespace denotes.
pub open spec fn primitive_of(local: Seq<char>) -> Option<Primitive> {
    if local == "bool"@ || local == "boolean"@ {
        Some(Primitive::Bool)
    } else if local == "positiveInteger"@ || local == "unsignedLong"@ || local
        == "nonNegativeInteger"@ {
        Some(Primitive::UInt64)
    } else if local == "byte"@ {
        Some(Primitive::Int8)
    } else if local == "unsignedByte"@ {
        Some(Primitive::UInt8)
    } else if local == "short"@ {
        Some(Primitive::Int16)
    } else if local == "unsignedShort"@ || local == "gYear"@ {
        Some(Primitive::UInt16)
    } else if local == "int"@ || local == "integer"@ {
        Some(Primitive::Int32)
    } else if local == "unsignedInt"@ {
        Some(Primitive::UInt32)
    } else if local == "long"@ {
        Some(Primitive::Int64)
    } else if local == "float"@ {
        Some(Primitive::Float32)
    } else if local == "double"@ {
        Some(Primitive::Float64)
    } else if local == "decimal"@ || local == "string"@ || local == "normalizedString"@ || local
        == "anyURI"@ || local == "token"@ || local == "language"@ || local == "hexBinary"@
        || local == "dateTime"@ || local == "base64Binary"@ || local == "duration"@ || local
        == "ID"@ || local == "IDREF"@ || local == "IDREFS"@ || local == "anyType"@ {
        Some(Primitive::Text)
    } else {
        None
    }
}

/// How a primitive is written in Rust.
pub open spec fn primitive_text(p: Primitive) -> Seq<char> {
    match p {
        Primitive::Bool => "bool"@,
        Primitive::Int8 => "i8"@,
        Primitive::UInt8 => "u8"@,
        Primitive::Int16 => "i16"@,
        Primitive::UInt16 => "u16"@,
        Primitive::Int32 => "i32"@,
        Primitive::UInt32 => "u32"@,
        Primitive::Int64 => "i64"@,
        Primitive::UInt64 => "u64"@,
        Primitive::Float32 => "f32"@,
        Primitive::Float64 => "f64"@,
        Primitive::Text => "String"@,
    }
}

impl Primitive {
    /// Looks a local name of the XML Schema namespace up in the table of primitives.
    pub fn lookup(local: &str) -> (p: Option<Primitive>)
        ensures
            p == primitive_of(local@),
    {
        if same_text(local, "bool") || same_text(local, "boolean") {
            Some(Primitive::Bool)
        } else if same_text(local, "positiveInteger") || same_text(local, "unsignedLong")
            || same_text(local, "nonNegativeInteger") {
            Some(Primitive::UInt64)
        } else if same_text(local, "byte") {
            Some(Primitive::Int8)
        } else if same_text(local, "unsignedByte") {
            Some(Primitive::UInt8)
        } else if same_text(local, "short") {
            Some(Primitive::Int16)
        } else if same_text(local, "unsignedShort") || same_text(local, "gYear") {
            Some(Primitive::UInt16)
        } else if same_text(local, "int") || same_text(local, "integer") {
            Some(Primitive::Int32)
        } else if same_text(local, "unsignedInt") {
            Some(Primitive::UInt32)
        } else if same_text(local, "long") {
            Some(Primitive::Int64)
        } else if same_text(local, "float") {
            Some(Primitive::Float32)
        } else if same_text(local, "double") {
            Some(Primitive::Float64)
        } else if same_text(local, "decimal") || same_text(local, "string") || same_text(
            local,
            "normalizedString",
        ) || same_text(local, "anyURI") || same_text(local, "token") || same_text(
            local,
            "language",
        ) || same_text(local, "hexBinary") || same_text(local, "dateTime") || same_text(
            local,
            "base64Binary",
        ) || same_text(local, "duration") || same_text(local, "ID") || same_text(local, "IDREF")
            || same_text(local, "IDREFS") || same_text(local, "anyType") {
            Some(Primitive::Text)
        } else {
            None
        }
    }

    /// How this primitive is written in Rust.
    pub fn rust_name(self) -> (name: &'static str)
        ensures
            name@ == primitive_text(self),
    {
        match self {
            Primitive::Bool => "bool",
            Primitive::Int8 => "i8",
            Primitive::UInt8 => "u8",
            Primitive::Int16 => "i16",
            Primitive::UInt16 => "u16",
            Primitive::Int32 => "i32",
            Primitive::UInt32 => "u32",
            Primitive::Int64 => "i64",
            Primitive::UInt64 => "u64",
            Primitive::Float32 => "f32",
            Primitive::Float64 => "f64",
            Primitive::Text => "String",
        }
    }
}

/// A type name as written in a schema, taken apart at its colons.
pub enum QualifiedName {
    /// No colon: a local name alone.
    Bare(Seq<char>),
    /// One colon: a prefix and a local name.
    Prefixed(Seq<char>, Seq<char>),
    /// More than one colon.
    Malformed,
}

/// The parts of the name `kind`.
pub open spec fn qualified_name(kind: Seq<char>) -> QualifiedName {
    let first = position(kind, ':');
    if first == kind.len() {
        QualifiedName::Bare(kind)
    } else if position_from(kind, ':', first + 1) < kind.len() {
        QualifiedName::Malformed
    } else {
        QualifiedName::Prefixed(kind.subrange(0, first), kind.subrange(first + 1, kind.len() as int))
    }
}

/// The parts of a well-formed type name.
pub struct NameParts<'a> {
    pub prefix: Option<&'a str>,
    pub local: &'a str,
}

impl<'a> NameParts<'a> {
    /// The parts as a qualified name.
    pub open spec fn model(self) -> QualifiedName {
        match self.prefix {
            Some(prefix) => QualifiedName::Prefixed(prefix@, self.local@),
            None => QualifiedName::Bare(self.local@),
        }
    }
}

/// Takes the name `kind` apart at its colon; `None` where it has more than one.
pub fn split_name<'a>(kind: &'a str) -> (parts: Option<NameParts<'a>>)
    ensures
        match parts {
            Some(p) => p.model() == qualified_name(kind@),
            None => qualified_name(kind@) is Malformed,
        },
{
    let n = kind.unicode_len();
    let first = find_char(kind, ':', 0);
    if first == n {
        Some(NameParts { prefix: None, local: kind })
    } else {
        let second = find_char(kind, ':', first + 1);
        if second < n {
            None
        } else {
            Some(NameParts { prefix: Some(head(kind, first)), local: tail(kind, first + 1) })
        }
    }
}

/// The Rust type for a local name of the XML Schema namespace; an unknown
/// name is an unsupported type.
pub open spec fn basic_type_text(local: Seq<char>) -> Outcome {
    match primitive_of(local) {
        Some(p) => Ok(primitive_text(p)),
        None => Err(failure(ErrorKind::UnsupportedType, local)),
    }
}

/// The module path, with its separator, that is written before a type of
/// the namespace bound to `prefix`; empty where no module is known.
pub open spec fn module_text(context: ContextModel, prefix: Seq<char>) -> Seq<char> {
    match context.module_of(prefix) {
        Some(module) => module + "::"@,
        None => Seq::empty(),
    }
}

/// The module path written before a type: that of its prefix, or that of
/// the default namespace where the name has no prefix. A name whose
/// namespace leads to no module is written without a path.
pub open spec fn qualifier_text(context: ContextModel, prefix: Option<Seq<char>>) -> Seq<char> {
    match prefix {
        Some(p) => module_text(context, p),
        None => module_text(context, Seq::empty()),
    }
}

/// The name of the Rust type declared for the schema type `local`; the empty
/// name stands for `String`.
pub open spec fn extern_name_text(local: Seq<char>) -> Seq<char> {
    if local.len() == 0 {
        "String"@
    } else {
        upper_camel_case(replaced(local, '.', "_"@))
    }
}

/// The Rust type for a schema type that the schema, or an imported one,
/// declares: the module, then the converted name.
pub open spec fn extern_type_text(
    context: ContextModel,
    prefix: Option<Seq<char>>,
    local: Seq<char>,
) -> Outcome {
    let path = qualifier_text(context, prefix) + extern_name_text(local);
    if is_type_path(path) {
        Ok(path)
    } else {
        Err(failure(ErrorKind::Format, path))
    }
}

/// Whether a name denotes a type of the XML Schema namespace: it carries the
/// prefix bound to that namespace, or none where that namespace is the default.
pub open spec fn is_builtin(context: ContextModel, name: QualifiedName) -> bool {
    match name {
        QualifiedName::Prefixed(prefix, _) => context.schema_prefix == Some(prefix),
        QualifiedName::Bare(_) => context.schema_prefix is None,
        QualifiedName::Malformed => false,
    }
}

/// The local part of a name.
pub open spec fn local_part(name: QualifiedName) -> Seq<char> {
    match name {
        QualifiedName::Prefixed(_, local) => local,
        QualifiedName::Bare(local) => local,
        QualifiedName::Malformed => Seq::empty(),
    }
}

/// The prefix of a name.
pub open spec fn prefix_part(name: QualifiedName) -> Option<Seq<char>> {
    match name {
        QualifiedName::Prefixed(prefix, _) => Some(prefix),
        _ => None,
    }
}

/// The Rust type that the schema type name `kind` maps to.
pub open spec fn type_text(context: ContextModel, kind: Seq<char>) -> Outcome {
    let name = qualified_name(kind);
    if name is Malformed {
        Err(failure(ErrorKind::Format, kind))
    } else if is_builtin(context, name) {
        basic_type_text(local_part(name))
    } else {
        extern_type_text(context, prefix_part(name), local_part(name))
    }
}

/// Whether `kind` names the primitive `wanted` of the XML Schema namespace.
pub open spec fn names_builtin(context: ContextModel, kind: Seq<char>, wanted: Seq<char>) -> bool {
    let name = qualified_name(kind);
    is_builtin(context, name) && local_part(name) == wanted
}

/// Whether a text holds no colon.
pub open spec fn has_no_colon(text: Seq<char>) -> bool {
    forall|i: int| 0 <= i < text.len() ==> text[i] != ':'
}

/// The name written as `prefix`, a colon, and `local`.
pub open spec fn prefixed(prefix: Seq<char>, local: Seq<char>) -> Seq<char> {
    prefix + seq![':'] + local
}

/// A prefix and a local name, neither of which holds a colon, are the parts
/// of the name written with a colon between them.
pub proof fn lemma_qualified_name_of_parts(prefix: Seq<char>, local: Seq<char>)
    requires
        has_no_colon(prefix),
        has_no_colon(local),
    ensures
        qualified_name(prefixed(prefix, local)) == QualifiedName::Prefixed(prefix, local),
{
    let kind = prefixed(prefix, local);
    let at = prefix.len() as int;
    assert forall|j: int| 0 <= j < at implies kind[j] != ':' by {
        assert(kind[j] == prefix[j]);
    }
    assert(kind[at] == ':');
    lemma_position_found(kind, ':', 0, at);
    assert forall|j: int| at + 1 <= j < kind.len() implies kind[j] != ':' by {
        assert(kind[j] == local[j - at - 1]);
    }
    lemma_position_found(kind, ':', at + 1, kind.len() as int);
    assert(kind.subrange(0, at) =~= prefix);
    assert(kind.subrange(at + 1, kind.len() as int) =~= local);
}

/// A name without a colon is a bare local name.
pub proof fn lemma_qualified_name_of_bare(local: Seq<char>)
    requires
        has_no_colon(local),
    ensures
        qualified_name(local) == QualifiedName::Bare(local),
{
    lemma_position_found(local, ':', 0, local.len() as int);
}

/// The word `string` is in the table of primitives, as the Rust `String`.
pub proof fn lemma_string_is_text()
    ensures
        primitive_of("string"@) == Some(Primitive::Text),
        has_no_colon("string"@),
        basic_type_text("string"@) == Ok::<Seq<char>, crate::error::Failure>("String"@),
{
    reveal_strlit("string");
    reveal_strlit("bool");
    reveal_strlit("boolean");
    reveal_strlit("positiveInteger");
    reveal_strlit("unsignedLong");
    reveal_strlit("nonNegativeInteger");
    reveal_strlit("byte");
    reveal_strlit("unsignedByte");
    reveal_strlit("short");
    reveal_strlit("unsignedShort");
    reveal_strlit("gYear");
    reveal_strlit("int");
    reveal_strlit("integer");
    reveal_strlit("unsignedInt");
    reveal_strlit("long");
    reveal_strlit("float");
    reveal_strlit("double");
    reveal_strlit("decimal");
    let s = "string"@;
    assert(s.len() == 6);
    assert(s[0] == 's' && s[1] == 't' && s[2] == 'r' && s[3] == 'i' && s[4] == 'n' && s[5] == 'g');
    assert("short"@[1] == 'h');
    assert("double"@[0] == 'd');
}

/// The word `unknownType` is not in the table of primitives.
pub proof fn lemma_unknown_type_is_no_primitive()
    ensures
        primitive_of("unknownType"@) is None,
        has_no_colon("unknownType"@),
{
    reveal_strlit("unknownType");
    reveal_strlit("bool");
    reveal_strlit("boolean");
    reveal_strlit("positiveInteger");
    reveal_strlit("unsignedLong");
    reveal_strlit("nonNegativeInteger");
    reveal_strlit("byte");
    reveal_strlit("unsignedByte");
    reveal_strlit("short");
    reveal_strlit("unsignedShort");
    reveal_strlit("gYear");
    reveal_strlit("int");
    reveal_strlit("integer");
    reveal_strlit("unsignedInt");
    reveal_strlit("long");
    reveal_strlit("float");
    reveal_strlit("double");
    reveal_strlit("decimal");
    reveal_strlit("string");
    reveal_strlit("normalizedString");
    reveal_strlit("anyURI");
    reveal_strlit("token");
    reveal_strlit("language");
    reveal_strlit("hexBinary");
    reveal_strlit("dateTime");
    reveal_strlit("base64Binary");
    reveal_strlit("duration");
    reveal_strlit("ID");
    reveal_strlit("IDREF");
    reveal_strlit("IDREFS");
    reveal_strlit("anyType");
    let s = "unknownType"@;
    assert(s.len() == 11);
    assert(s[0] == 'u' && s[1] == 'n' && s[2] == 'k');
    assert("unsignedLong"@.len() == 12);
    assert("unsignedByte"@.len() == 12);
    assert("unsignedInt"@[2] == 's');
    assert("base64Binary"@.len() == 12);
}

/// In a document that binds a prefix to the XML Schema namespace, that
/// prefix before `string` always maps to the Rust `String`.
pub proof fn lemma_schema_string_maps_to_string(context: ContextModel, prefix: Seq<char>)
    requires
        context.schema_prefix == Some(prefix),
        has_no_colon(prefix),
    ensures
        type_text(context, prefixed(prefix, "string"@)) == Ok::<Seq<char>, crate::error::Failure>(
            "String"@,
        ),
        names_builtin(context, prefixed(prefix, "string"@), "string"@),
{
    lemma_string_is_text();
    lemma_qualified_name_of_parts(prefix, "string"@);
}

/// In a document whose default namespace is the XML Schema namespace, the
/// bare name `string` always maps to the Rust `String`.
pub proof fn lemma_bare_string_maps_to_string(context: ContextModel)
    requires
        context.schema_prefix is None,
    ensures
        type_text(context, "string"@) == Ok::<Seq<char>, crate::error::Failure>("String"@),
        names_builtin(context, "string"@, "string"@),
{
    lemma_string_is_text();
    lemma_qualified_name_of_bare("string"@);
}

/// A name with the prefix of the XML Schema namespace whose local part is
/// not in the table of primitives always fails as an unsupported type that
/// names the local part; `unknownType` is such a local part.
pub proof fn lemma_unknown_builtin_fails(context: ContextModel, prefix: Seq<char>, local: Seq<char>)
    requires
        context.schema_prefix == Some(prefix),
        has_no_colon(prefix),
        has_no_colon(local),
        primitive_of(local) is None,
    ensures
        type_text(context, prefixed(prefix, local)) == Err::<Seq<char>, crate::error::Failure>(
            failure(ErrorKind::UnsupportedType, local),
        ),
        primitive_of("unknownType"@) is None,
{
    lemma_qualified_name_of_parts(prefix, local);
    lemma_unknown_type_is_no_primitive();
}

/// A name with a prefix other than that of the XML Schema namespace always
/// maps to the path of a declared type: the module that the prefix leads
/// to, then a name derived from the local part alone.
pub proof fn lemma_foreign_name_maps_to_its_path(
    context: ContextModel,
    prefix: Seq<char>,
    local: Seq<char>,
)
    requires
        context.schema_prefix != Some(prefix),
        has_no_colon(prefix),
        has_no_colon(local),
    ensures
        type_text(context, prefixed(prefix, local)) == extern_type_text(
            context,
            Some(prefix),
            local,
        ),
        type_text(context, prefixed(prefix, local)) matches Ok(path) ==> path == qualifier_text(
            context,
            Some(prefix),
        ) + extern_name_text(local),
        !(type_text(context, prefixed(prefix, local)) matches Err(f) && f.kind
            == ErrorKind::UnsupportedType),
{
    lemma_qualified_name_of_parts(prefix, local);
}

/// The mapping from schema type names to Rust types.
#[derive(Debug)]
pub struct RustTypesMapping {}

impl RustTypesMapping {
    /// Maps the schema type name `kind` to a Rust type. A name with more
    /// than one colon is a format failure; a name of the XML Schema namespace
    /// that is no known primitive is an unsupported type; any other name
    /// becomes the path of a declared type.
    pub fn get(context: &XsdContext, kind: &str) -> (r: Result<String, GenError>)
        ensures
            outcome(r) == type_text(context@, kind@),
    {
        match split_name(kind) {
            None => Err(GenError::new(ErrorKind::Format, kind)),
            Some(parts) => match parts.prefix {
                Some(prefix) => {
                    if context.match_xml_schema_prefix(prefix) {
                        RustTypesMapping::basic_type(parts.local)
                    } else {
                        RustTypesMapping::extern_type(context, parts)
                    }
                },
                None => {
                    if context.has_xml_schema_prefix() {
                        RustTypesMapping::extern_type(context, parts)
                    } else {
                        RustTypesMapping::basic_type(parts.local)
                    }
                },
            },
        }
    }

    /// Whether `kind` names the `string` type of the XML Schema namespace.
    pub fn is_xs_string(context: &XsdContext, kind: &str) -> (r: bool)
        ensures
            r == names_builtin(context@, kind@, "string"@),
    {
        RustTypesMapping::is_builtin_named(context, kind, "string")
    }

    /// Whether `kind` names the `int` type of the XML Schema namespace.
    pub fn is_xs_int(context: &XsdContext, kind: &str) -> (r: bool)
        ensures
            r == names_builtin(context@, kind@, "int"@),
    {
        RustTypesMapping::is_builtin_named(context, kind, "int")
    }

    fn is_builtin_named(context: &XsdContext, kind: &str, wanted: &str) -> (r: bool)
        ensures
            r == names_builtin(context@, kind@, wanted@),
    {
        match split_name(kind) {
            None => false,
            Some(parts) => match parts.prefix {
                Some(prefix) => context.match_xml_schema_prefix(prefix) && same_text(
                    parts.local,
                    wanted,
                ),
                None => !context.has_xml_schema_prefix() && same_text(parts.local, wanted),
            },
        }
    }

    /// The Rust type for a local name of the XML Schema namespace.
    pub fn basic_type(item: &str) -> (r: Result<String, GenError>)
        ensures
            outcome(r) == basic_type_text(item@),
    {
        match Primitive::lookup(item) {
            Some(p) => Ok(p.rust_name().to_owned()),
            None => Err(GenError::new(ErrorKind::UnsupportedType, item)),
        }
    }

    /// The module path, with its separator, for the namespace bound to `prefix`.
    fn module_prefix(context: &XsdContext, prefix: &str) -> (r: Option<String>)
        ensures
            match r {
                Some(text) => context@.module_of(prefix@) is Some && text@ == module_text(
                    context@,
                    prefix@,
                ),
                None => context@.module_of(prefix@) is None,
            },
    {
        match context.get_module(prefix) {
            Some(module) => {
                let mut text = module;
                text.append("::");
                Some(text)
            },
            None => None,
        }
    }

    /// The Rust type for a schema type that the schema, or an imported one, declares.
    pub fn extern_type(context: &XsdContext, parts: NameParts<'_>) -> (r: Result<String, GenError>)
        ensures
            outcome(r) == extern_type_text(
                context@,
                prefix_part(parts.model()),
                local_part(parts.model()),
            ),
    {
        let name = if parts.local.unicode_len() == 0 {
            "String".to_owned()
        } else {
            let plain = replace_char(parts.local, '.', "_");
            to_upper_camel_case(plain.as_str())
        };
        proof {
            reveal_strlit("");
            assert(""@ =~= Seq::<char>::empty());
        }
        let module = match parts.prefix {
            Some(prefix) => RustTypesMapping::module_prefix(context, prefix),
            None => RustTypesMapping::module_prefix(context, ""),
        };
        let mut path = match module {
            Some(text) => text,
            None => String::new(),
        };
        path.append(name.as_str());
        if check_type_path(path.as_str()) {
            Ok(path)
        } else {
            Err(GenError::new(ErrorKind::Format, path.as_str()))
        }
    }
}

} // verus!
