//! Names of generated items: case conversion, reserved words, the checks
//! that a name can stand in Rust source, and how a text is written as a
//! string literal.

use vstd::prelude::*;
use crate::error::{failure, outcome, ErrorKind, GenError, Outcome};
use crate::text::{find_char, position_from, replace_char, replaced};

verus! {

/// The snake_case form of a name, as `heck` computes it.
pub uninterp spec fn snake_case(name: Seq<char>) -> Seq<char>;

/// The UpperCamelCase form of a name, as `heck` computes it.
pub uninterp spec fn upper_camel_case(name: Seq<char>) -> Seq<char>;

/// Whether a character has the Unicode property XID_Start, as `unicode-ident` tells it.
pub uninterp spec fn xid_start(c: char) -> bool;

/// Whether a character has the Unicode property XID_Continue, as `unicode-ident` tells it.
pub uninterp spec fn xid_continue(c: char) -> bool;

/// Trusted: `heck::ToSnakeCase::to_snake_case` on `str`. The result is a
/// function of the name alone; nothing more is claimed of it.
#[verifier::external_body]
pub(crate) fn to_snake_case(name: &str) -> (out: String)
    ensures
        out@ == snake_case(name@),
{
    heck::ToSnakeCase::to_snake_case(name)
}

/// Trusted: `heck::ToUpperCamelCase::to_upper_camel_case` on `str`. The
/// result is a function of the name alone; nothing more is claimed of it.
#[verifier::external_body]
pub(crate) fn to_upper_camel_case(name: &str) -> (out: String)
    ensures
        out@ == upper_camel_case(name@),
{
    heck::ToUpperCamelCase::to_upper_camel_case(name)
}

/// Trusted: `unicode_ident::is_xid_start`, a lookup of the character in a
/// fixed table. The answer is a function of the character alone.
#[verifier::external_body]
pub(crate) fn is_xid_start(c: char) -> (yes: bool)
    ensures
        yes == xid_start(c),
{
    unicode_ident::is_xid_start(c)
}

/// Trusted: `unicode_ident::is_xid_continue`, a lookup of the character in
/// a fixed table. The answer is a function of the character alone.
#[verifier::external_body]
pub(crate) fn is_xid_continue(c: char) -> (yes: bool)
    ensures
        yes == xid_continue(c),
{
    unicode_ident::is_xid_continue(c)
}

/// Whether a text is one Rust identifier and nothing else: an underscore or
/// a character that may start an identifier, then only characters that may
/// continue one. Keywords count as identifiers.
pub open spec fn is_identifier(name: Seq<char>) -> bool {
    &&& name.len() > 0
    &&& (name[0] == '_' || xid_start(name[0]))
    &&& forall|i: int| 1 <= i < name.len() ==> xid_continue(#[trigger] name[i])
}

/// Tells whether a text is one Rust identifier and nothing else.
pub fn check_identifier(name: &str) -> (ok: bool)
    ensures
        ok == is_identifier(name@),
{
    let n = name.unicode_len();
    if n == 0 {
        return false;
    }
    let first = name.get_char(0);
    if !(first == '_' || is_xid_start(first)) {
        return false;
    }
    let mut i: usize = 1;
    while i < n
        invariant
            1 <= i <= n,
            n == name@.len(),
            forall|j: int| 1 <= j < i ==> xid_continue(#[trigger] name@[j]),
        decreases n - i,
    {
        if !is_xid_continue(name.get_char(i)) {
            return false;
        }
        i = i + 1;
    }
    true
}

/// Whether the part of `path` from `from` on is a run of identifiers with
/// `::` between each two.
pub open spec fn is_path_from(path: Seq<char>, from: int) -> bool
    decreases path.len() - from,
{
    if from < 0 || from > path.len() {
        false
    } else {
        let at = position_from(path, ':', from);
        if at >= path.len() {
            is_identifier(path.subrange(from, path.len() as int))
        } else if at < from {
            false
        } else {
            is_identifier(path.subrange(from, at)) && at + 1 < path.len() && path[at + 1] == ':'
                && is_path_from(path, at + 2)
        }
    }
}

/// Whether a text is the path of a type: identifiers with `::` between each
/// two, and nothing else.
pub open spec fn is_type_path(path: Seq<char>) -> bool {
    is_path_from(path, 0)
}

/// Tells whether a text is the path of a type.
pub fn check_type_path(path: &str) -> (ok: bool)
    ensures
        ok == is_type_path(path@),
{
    let n = path.unicode_len();
    let mut from: usize = 0;
    loop
        invariant
            from <= n,
            n == path@.len(),
            is_path_from(path@, from as int) == is_type_path(path@),
        decreases n - from,
    {
        let at = find_char(path, ':', from);
        let piece = path.substring_char(from, at);
        if at == n {
            return check_identifier(piece);
        }
        if !check_identifier(piece) {
            return false;
        }
        if !(n - at > 1 && path.get_char(at + 1) == ':') {
            return false;
        }
        from = at + 2;
    }
}

/// How one character of a text is written inside a string literal: a
/// backslash before a quote or a backslash, the short escapes for line feed,
/// carriage return and tab, a Unicode escape for the null character, and any
/// other character as it is.
pub open spec fn escaped_char(c: char) -> Seq<char> {
    if c == '"' {
        "\\\""@
    } else if c == '\\' {
        "\\\\"@
    } else if c == '\n' {
        "\\n"@
    } else if c == '\r' {
        "\\r"@
    } else if c == '\t' {
        "\\t"@
    } else if c == '\0' {
        "\\u{0}"@
    } else {
        seq![c]
    }
}

/// The characters of a text as written inside a string literal.
pub open spec fn escaped(value: Seq<char>) -> Seq<char>
    decreases value.len(),
{
    if value.len() == 0 {
        Seq::empty()
    } else {
        escaped(value.drop_last()) + escaped_char(value.last())
    }
}

/// The Rust string literal that denotes a text: the escaped characters
/// between double quotes.
pub open spec fn string_literal(value: Seq<char>) -> Seq<char> {
    "\""@ + escaped(value) + "\""@
}

/// Writes the Rust string literal that denotes a text.
pub fn quote_text(value: &str) -> (out: String)
    ensures
        out@ == string_literal(value@),
{
    let n = value.unicode_len();
    let mut body = String::new();
    let mut i: usize = 0;
    while i < n
        invariant
            i <= n,
            n == value@.len(),
            body@ == escaped(value@.subrange(0, i as int)),
        decreases n - i,
    {
        proof {
            assert(value@.subrange(0, i + 1).drop_last() == value@.subrange(0, i as int));
            assert(value@.subrange(0, i + 1).last() == value@[i as int]);
        }
        let c = value.get_char(i);
        if c == '"' {
            body.append("\\\"");
        } else if c == '\\' {
            body.append("\\\\");
        } else if c == '\n' {
            body.append("\\n");
        } else if c == '\r' {
            body.append("\\r");
        } else if c == '\t' {
            body.append("\\t");
        } else if c == '\0' {
            body.append("\\u{0}");
        } else {
            let piece = value.substring_char(i, i + 1);
            proof {
                assert(piece@ == seq![value@[i as int]]);
            }
            body.append(piece);
        }
        i = i + 1;
    }
    proof {
        assert(value@.subrange(0, n as int) == value@);
    }
    let mut out = "\"".to_owned();
    out.append(body.as_str());
    out.append("\"");
    out
}

/// Whether `name` is the word `type`, in any mix of upper and lower case.
pub open spec fn is_type_word(name: Seq<char>) -> bool {
    &&& name.len() == 4
    &&& (name[0] == 't' || name[0] == 'T')
    &&& (name[1] == 'y' || name[1] == 'Y')
    &&& (name[2] == 'p' || name[2] == 'P')
    &&& (name[3] == 'e' || name[3] == 'E')
}

/// Tells whether `name` is the word `type`, in any mix of upper and lower case.
pub fn names_type(name: &str) -> (yes: bool)
    ensures
        yes == is_type_word(name@),
{
    if name.unicode_len() != 4 {
        return false;
    }
    let c0 = name.get_char(0);
    let c1 = name.get_char(1);
    let c2 = name.get_char(2);
    let c3 = name.get_char(3);
    (c0 == 't' || c0 == 'T') && (c1 == 'y' || c1 == 'Y') && (c2 == 'p' || c2 == 'P') && (c3
        == 'e' || c3 == 'E')
}

/// The text as an identifier: the text itself where it is one, else a
/// format failure that names it.
pub open spec fn as_identifier(name: Seq<char>) -> Outcome {
    if is_identifier(name) {
        Ok(name)
    } else {
        Err(failure(ErrorKind::Format, name))
    }
}

/// Accepts `name` where it is an identifier.
pub fn identifier(name: String) -> (r: Result<String, GenError>)
    ensures
        outcome(r) == as_identifier(name@),
{
    if check_identifier(name.as_str()) {
        Ok(name)
    } else {
        Err(GenError::new(ErrorKind::Format, name.as_str()))
    }
}

/// The stem of a field's name: `kind` for the word `type`, which Rust
/// reserves, else the snake_case form.
pub open spec fn field_stem(raw: Seq<char>) -> Seq<char> {
    if is_type_word(raw) {
        "kind"@
    } else {
        snake_case(raw)
    }
}

/// The name of the field for a schema item called `raw`; a repeated field
/// carries the suffix `_list`.
pub open spec fn field_name_of(raw: Seq<char>, repeated: bool) -> Outcome {
    as_identifier(
        if repeated {
            field_stem(raw) + "_list"@
        } else {
            field_stem(raw)
        },
    )
}

/// Names the field for a schema item called `raw`.
pub fn field_name(raw: &str, repeated: bool) -> (r: Result<String, GenError>)
    ensures
        outcome(r) == field_name_of(raw@, repeated),
{
    let mut name = if names_type(raw) {
        "kind".to_owned()
    } else {
        to_snake_case(raw)
    };
    if repeated {
        name.append("_list");
    }
    identifier(name)
}

/// The name of the type declared for a schema item called `raw`.
pub open spec fn struct_name_of(raw: Seq<char>) -> Outcome {
    as_identifier(upper_camel_case(raw))
}

/// Names the type declared for a schema item called `raw`.
pub fn struct_name(raw: &str) -> (r: Result<String, GenError>)
    ensures
        outcome(r) == struct_name_of(raw@),
{
    identifier(to_upper_camel_case(raw))
}

/// The name of the type declared for an element or complex type called
/// `raw`: dots count as underscores.
pub open spec fn dotted_struct_name_of(raw: Seq<char>) -> Outcome {
    struct_name_of(replaced(raw, '.', "_"@))
}

/// Names the type declared for an element or complex type called `raw`.
pub fn dotted_struct_name(raw: &str) -> (r: Result<String, GenError>)
    ensures
        outcome(r) == dotted_struct_name_of(raw@),
{
    let plain = replace_char(raw, '.', "_");
    struct_name(plain.as_str())
}

} // verus!
