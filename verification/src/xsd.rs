//! A schema document ready for translation, and the translation itself.

use vstd::prelude::*;
use crate::error::{outcome, GenError, Outcome};
use crate::naming::{as_identifier, identifier, snake_case, to_snake_case};
use crate::schema::{schema_text, Schema};
use crate::text::{table_model, tail, text_option};
use crate::xsd_context::{context_of_tokens, xml_tokens, ContextModel, XsdContext};

verus! {

/// A schema, the namespaces of its document, and the name of the module
/// that its code goes to.
#[derive(Debug)]
pub struct Xsd {
    pub name: String,
    pub context: XsdContext,
    pub schema: Schema,
}

/// Who may use the generated items.
#[derive(Clone, Copy, Debug, PartialEq, Eq)]
pub enum Visibility {
    Public,
    Inherited,
}

/// How a visibility is written before an item.
pub open spec fn visibility_text(visibility: Visibility) -> Seq<char> {
    match visibility {
        Visibility::Public => "pub "@,
        Visibility::Inherited => Seq::empty(),
    }
}

/// The byte order mark that some editors write at the start of a file.
pub const BYTE_ORDER_MARK: char = '\u{feff}';

/// A text without the byte order mark that it may start with.
pub open spec fn without_bom(content: Seq<char>) -> Seq<char> {
    if content.len() > 0 && content[0] == BYTE_ORDER_MARK {
        content.subrange(1, content.len() as int)
    } else {
        content
    }
}

/// Drops the byte order mark that a document may start with.
pub fn strip_bom(content: &str) -> (out: &str)
    ensures
        out@ == without_bom(content@),
{
    if content.unicode_len() > 0 && content.get_char(0) == BYTE_ORDER_MARK {
        tail(content, 1)
    } else {
        content
    }
}

/// The code for a schema document: a private module, named after the
/// document in snake_case, that holds the schema's code, and a `use` of
/// everything in it under the given visibility.
pub open spec fn xsd_text(
    name: Seq<char>,
    schema: Schema,
    context: ContextModel,
    visibility: Visibility,
    prefix: Option<Seq<char>>,
) -> Outcome {
    match schema_text(schema, context, prefix) {
        Err(f) => Err(f),
        Ok(body) => match as_identifier(snake_case(name)) {
            Err(f) => Err(f),
            Ok(module) => Ok(
                "mod "@ + module + " { "@ + body + "} "@ + visibility_text(visibility) + "use "@
                    + module + ":: * ;"@,
            ),
        },
    }
}

impl Xsd {
    /// Puts a parsed schema together with the context read off the text of
    /// its document and the caller's table from namespace name to module.
    /// Fails exactly where the document opens no schema root.
    pub fn new(
        name: String,
        content: &str,
        module_namespace_mappings: &Vec<(String, String)>,
        schema: Schema,
    ) -> (r: Result<Xsd, GenError>)
        ensures
            match context_of_tokens(xml_tokens(content@)) {
                Ok(context) => r matches Ok(xsd) && xsd.name == name && xsd.schema == schema
                    && xsd.context@ == (ContextModel {
                    modules: table_model(module_namespace_mappings@),
                    ..context
                }),
                Err(f) => r matches Err(e) && e@ == f,
            },
    {
        let context = XsdContext::new(content)?;
        let context = context.with_module_namespace_mappings(module_namespace_mappings);
        Ok(Xsd { name, context, schema })
    }
}

/// Translates a schema document into Rust source text.
pub fn implement_xsd(xsd: &Xsd, visibility: Visibility, target_prefix: &Option<String>) -> (r:
    Result<String, GenError>)
    ensures
        outcome(r) == xsd_text(
            xsd.name@,
            xsd.schema,
            xsd.context@,
            visibility,
            text_option(*target_prefix),
        ),
{
    let body = xsd.schema.implement("", target_prefix, &xsd.context)?;
    let module = identifier(to_snake_case(xsd.name.as_str()))?;
    let mut out = "mod ".to_owned();
    out.append(module.as_str());
    out.append(" { ");
    out.append(body.as_str());
    out.append("} ");
    match visibility {
        Visibility::Public => {
            out.append("pub ");
        },
        Visibility::Inherited => {
            proof {
                assert(out@ + Seq::<char>::empty() =~= out@);
            }
        },
    }
    out.append("use ");
    out.append(module.as_str());
    out.append(":: * ;");
    Ok(out)
}

} // verus!
