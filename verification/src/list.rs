//! A simple type whose value is a space-separated list of items.

use vstd::prelude::*;
use crate::error::{outcome, GenError, Outcome};
use crate::rust_types_mapping::{type_text, RustTypesMapping};
use crate::xsd_context::{ContextModel, XsdContext};

verus! {

#[derive(Clone, Default, Debug, PartialEq)]
pub struct List {
    pub item_type: String,
}

pub const LIST_OPEN: &'static str = "#[derive(Clone, Debug, Default, PartialEq)] pub struct ";

pub const LIST_ITEMS: &'static str = " { pub items: Vec<";

pub const LIST_DECODER: &'static str = "> } impl yaserde::YaDeserialize for ";

pub const LIST_DECODE_BODY: &'static str =
    " { fn deserialize<R: std::io::Read>(reader: &mut yaserde::de::Deserializer<R>) -> Result<Self, String> { loop { match reader.next_event()? { xml::reader::XmlEvent::StartElement{..} => {} xml::reader::XmlEvent::Characters(ref text_content) => { let items: Vec<";

pub const LIST_DECODE_ITEMS: &'static str =
    "> = text_content.split(' ').map(|item| item.to_owned()).map(|item| item.parse().map_err(|_| \"Unable to parse list item\".to_string())).collect:: <Result<Vec<_> , String>>()? ; return Ok(";

pub const LIST_ENCODER: &'static str =
    " {items}); } _ => {break;} } } Err(\"Unable to parse attribute\".to_string()) } } impl yaserde::YaSerialize for ";

pub const LIST_ENCODE_BODY: &'static str =
    " { fn serialize<W: std::io::Write>(&self, writer: &mut yaserde::ser::Serializer<W>) -> Result<(), String> { let content = self.items.iter().map(|item| item.to_string()).collect:: <Vec<String>>().join(\" \"); let data_event = xml::writer::XmlEvent::characters(&content); writer.write(data_event).map_err(|e| e.to_string())? ; Ok(()) } fn serialize_attributes(&self, mut source_attributes: Vec<xml::attribute::OwnedAttribute> , mut source_namespace: xml::namespace::Namespace) -> Result<(Vec<xml::attribute::OwnedAttribute> , xml::namespace::Namespace), String> { Ok((source_attributes, source_namespace)) } } ";

/// The declaration of a list type called `name` with items of type `item`:
/// a struct that holds the items, its decoder, which splits the text at each
/// single space, parses every piece and returns the first failure in place
/// of any list, and its encoder, which joins the items' texts with single
/// spaces.
pub open spec fn list_declaration_text(name: Seq<char>, item: Seq<char>) -> Seq<char> {
    LIST_OPEN@ + name + LIST_ITEMS@ + item + LIST_DECODER@ + name + LIST_DECODE_BODY@ + item
        + LIST_DECODE_ITEMS@ + name + LIST_ENCODER@ + name + LIST_ENCODE_BODY@
}

/// What a list generates under the name `name`: its declaration, where the
/// item type maps to a Rust type.
pub open spec fn list_text(list: List, context: ContextModel, name: Seq<char>) -> Outcome {
    match type_text(context, list.item_type@) {
        Ok(item) => Ok(list_declaration_text(name, item)),
        Err(f) => Err(f),
    }
}

impl List {
    /// Generates the declaration of this list type under the name `struct_name`.
    pub fn implement_childs(
        &self,
        _namespace_definition: &str,
        _prefix: &Option<String>,
        context: &XsdContext,
        struct_name: &str,
    ) -> (r: Result<String, GenError>)
        ensures
            outcome(r) == list_text(*self, context@, struct_name@),
    {
        let item = RustTypesMapping::get(context, self.item_type.as_str())?;
        let mut out = LIST_OPEN.to_owned();
        out.append(struct_name);
        out.append(LIST_ITEMS);
        out.append(item.as_str());
        out.append(LIST_DECODER);
        out.append(struct_name);
        out.append(LIST_DECODE_BODY);
        out.append(item.as_str());
        out.append(LIST_DECODE_ITEMS);
        out.append(struct_name);
        out.append(LIST_ENCODER);
        out.append(struct_name);
        out.append(LIST_ENCODE_BODY);
        Ok(out)
    }
}

} // verus!
