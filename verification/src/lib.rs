//! Translation of XML Schema documents into typed Rust declarations.

pub mod annotation;
pub mod attribute;
pub mod attribute_group;
pub mod choice;
pub mod complex_content;
pub mod complex_type;
pub mod element;
pub mod error;
pub mod extension;
pub mod group;
pub mod import;
pub mod list;
pub mod list_codec;
pub mod mappings;
pub mod max_occurences;
pub mod naming;
pub mod qualification;
pub mod render;
pub mod restriction;
pub mod rust_types_mapping;
pub mod schema;
pub mod sequence;
pub mod simple_content;
pub mod simple_type;
pub mod text;
pub mod union;
pub mod xsd;
pub mod xsd_context;

pub use annotation::Annotation;
pub use attribute::{Attribute, Required};
pub use attribute_group::AttributeGroup;
pub use choice::Choice;
pub use complex_content::ComplexContent;
pub use complex_type::ComplexType;
pub use element::Element;
pub use error::{ErrorKind, GenError};
pub use extension::Extension;
pub use group::Group;
pub use import::Import;
pub use list::List;
pub use list_codec::{decode_list, encode_list};
pub use mappings::parse_module_namespace_mappings;
pub use max_occurences::MaxOccurences;
pub use qualification::Qualification;
pub use render::Multiplicity;
pub use restriction::Restriction;
pub use rust_types_mapping::{Primitive, RustTypesMapping};
pub use schema::{generate_namespace_definition, Schema};
pub use sequence::Sequence;
pub use simple_content::SimpleContent;
pub use simple_type::SimpleType;
pub use union::Union;
pub use xsd::{implement_xsd, strip_bom, Visibility, Xsd};
pub use xsd_context::XsdContext;
