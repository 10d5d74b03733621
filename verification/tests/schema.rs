use proc_macro2::TokenStream;
use std::str::FromStr;
use xml_schema::{
  generate_namespace_definition, implement_xsd, strip_bom, Attribute, AttributeGroup, ComplexContent,
  ComplexType, Element, ErrorKind, Extension, Qualification, Required, Schema, Sequence, SimpleType,
  Visibility, Xsd, XsdContext,
};

static DERIVES: &str =
  "#[derive(Clone, Debug, Default, PartialEq, yaserde_derive::YaDeserialize, yaserde_derive::YaSerialize)]";

fn schema_tokens(text: &str) -> String {
  TokenStream::from_str(text).unwrap().to_string()
}

#[test]
fn default_qualification() {
  assert_eq!(Qualification::default(), Qualification::Unqualified);
}

#[test]
fn qualification_literals_are_matched_exactly() {
  assert_eq!(Qualification::parse("qualified"), Some(Qualification::Qualified));
  assert_eq!(Qualification::parse("unqualified"), Some(Qualification::Unqualified));
  assert_eq!(Qualification::parse("Qualified"), None);
  assert_eq!(Qualification::parse("qualified "), None);
}

#[test]
fn default_schema_implementation() {
  let schema = Schema::default();

  let context =
    XsdContext::new(r#"<xs:schema xmlns:xs="http://www.w3.org/2001/XMLSchema"></xs:schema>"#)
      .unwrap();

  let implementation = format!(
    "{}",
    TokenStream::from_str(&schema.implement("", &None, &context).unwrap()).unwrap()
  );
  assert_eq!(implementation, "pub mod xml_schema_types { }");
}

#[test]
fn missing_prefix_is_a_configuration_failure() {
  let schema = Schema {
    target_namespace: Some("http://example.com".to_string()),
    ..Default::default()
  };

  let context =
    XsdContext::new(r#"<xs:schema xmlns:xs="http://www.w3.org/2001/XMLSchema"></xs:schema>"#)
      .unwrap();

  let error = schema.implement("", &None, &context).unwrap_err();
  assert_eq!(error.kind, ErrorKind::Configuration);
  assert_eq!(error.subject, "http://example.com");
}

#[test]
fn missing_target_namespace_is_a_configuration_failure() {
  let schema = Schema::default();

  let context =
    XsdContext::new(r#"<xs:schema xmlns:xs="http://www.w3.org/2001/XMLSchema"></xs:schema>"#)
      .unwrap();

  let error = schema
    .implement("", &Some("ex".to_string()), &context)
    .unwrap_err();
  assert_eq!(error.kind, ErrorKind::Configuration);
  assert_eq!(error.subject, "ex");
}

#[test]
fn generate_namespace() {
  let definition = generate_namespace_definition(
    &Some("prefix".to_string()),
    &Some("http://example.com".to_string()),
  )
  .unwrap();

  let implementation = format!("{}", TokenStream::from_str(&definition).unwrap());

  assert_eq!(
    implementation,
    r#"# [yaserde (prefix = "prefix" , namespace = "prefix: http://example.com")]"#
  );
}

#[test]
fn no_prefix_and_no_namespace_define_nothing() {
  assert_eq!(generate_namespace_definition(&None, &None).unwrap(), "");
}

#[test]
fn root_element_with_an_optional_string_child() {
  let schema = Schema {
    elements: vec![Element {
      name: "Person".to_string(),
      complex_type: Some(ComplexType {
        sequence: Some(Sequence {
          elements: vec![Element {
            name: "firstname".to_string(),
            kind: Some("xs:string".to_string()),
            min_occurences: Some(0),
            ..Default::default()
          }],
        }),
        ..Default::default()
      }),
      ..Default::default()
    }],
    ..Default::default()
  };
  let context =
    XsdContext::new(r#"<xs:schema xmlns:xs="http://www.w3.org/2001/XMLSchema"></xs:schema>"#)
      .unwrap();
  assert_eq!(
    schema_tokens(&schema.implement("", &None, &context).unwrap()),
    schema_tokens(&format!(
      r#"pub mod xml_schema_types {{ }}
         {DERIVES}
         pub struct Person {{
           #[yaserde(rename = "firstname")]
           pub firstname: Option<String> ,
         }}"#
    ))
  );
}

#[test]
fn attribute_group_reference_pulls_in_the_group_attributes() {
  let schema = Schema {
    complex_type: vec![ComplexType {
      name: "book".to_string(),
      attributes: vec![Attribute {
        name: Some("isbn".to_string()),
        kind: Some("xs:string".to_string()),
        required: Required::Required,
        ..Default::default()
      }],
      attribute_groups: vec![AttributeGroup {
        name: None,
        reference: "tns:common".to_string(),
        attributes: vec![],
      }],
      ..Default::default()
    }],
    attribute_group: vec![
      AttributeGroup {
        name: Some("other".to_string()),
        reference: "".to_string(),
        attributes: vec![Attribute {
          name: Some("unused".to_string()),
          kind: Some("xs:string".to_string()),
          ..Default::default()
        }],
      },
      AttributeGroup {
        name: Some("common".to_string()),
        reference: "".to_string(),
        attributes: vec![
          Attribute {
            name: Some("id".to_string()),
            kind: Some("xs:ID".to_string()),
            required: Required::Required,
            ..Default::default()
          },
          Attribute {
            name: Some("lang".to_string()),
            kind: Some("xs:language".to_string()),
            ..Default::default()
          },
        ],
      },
    ],
    ..Default::default()
  };
  let context =
    XsdContext::new(r#"<xs:schema xmlns:xs="http://www.w3.org/2001/XMLSchema"></xs:schema>"#)
      .unwrap();
  assert_eq!(
    schema_tokens(&schema.implement("", &None, &context).unwrap()),
    schema_tokens(&format!(
      r#"pub mod xml_schema_types {{
           {DERIVES}
           pub struct Book {{
             #[yaserde(attribute)]
             pub isbn: String,
             #[yaserde(attribute)]
             pub id: String,
             #[yaserde(attribute)]
             pub lang: Option<String> ,
           }}
         }}"#
    ))
  );
}

#[test]
fn attribute_group_reference_to_nothing_is_a_missing_reference() {
  let complex_type = ComplexType {
    name: "book".to_string(),
    attribute_groups: vec![AttributeGroup {
      name: None,
      reference: "tns:common".to_string(),
      attributes: vec![],
    }],
    ..Default::default()
  };
  let context =
    XsdContext::new(r#"<xs:schema xmlns:xs="http://www.w3.org/2001/XMLSchema"></xs:schema>"#)
      .unwrap();
  let error = complex_type.implement("", &None, &context).unwrap_err();
  assert_eq!(error.kind, ErrorKind::MissingReference);
  assert_eq!(error.subject, "tns:common");

  let complex_type = ComplexType {
    name: "book".to_string(),
    attribute_groups: vec![AttributeGroup {
      name: None,
      reference: "a:b:c".to_string(),
      attributes: vec![],
    }],
    ..Default::default()
  };
  let error = complex_type.implement("", &None, &context).unwrap_err();
  assert_eq!(error.kind, ErrorKind::Format);
}

#[test]
fn complex_content_extension_flattens_the_base() {
  let address = |name: &str| Element {
    name: name.to_string(),
    kind: Some("xs:string".to_string()),
    ..Default::default()
  };
  let schema = Schema {
    complex_type: vec![ComplexType {
      name: "FullPersonInfo".to_string(),
      complex_content: Some(ComplexContent {
        extension: Some(Extension {
          base: "PersonInfo".to_string(),
          attributes: vec![],
          sequences: vec![Sequence {
            elements: vec![address("address"), address("city"), address("country")],
          }],
          group: None,
        }),
      }),
      ..Default::default()
    }],
    ..Default::default()
  };
  let context =
    XsdContext::new(r#"<xs:schema xmlns:xs="http://www.w3.org/2001/XMLSchema"></xs:schema>"#)
      .unwrap();
  assert_eq!(
    schema_tokens(&schema.implement("", &None, &context).unwrap()),
    schema_tokens(&format!(
      r#"pub mod xml_schema_types {{
           {DERIVES}
           pub struct FullPersonInfo {{
             #[yaserde(flatten)]
             pub base: PersonInfo,
             #[yaserde(rename = "address")]
             pub address: String,
             #[yaserde(rename = "city")]
             pub city: String,
             #[yaserde(rename = "country")]
             pub country: String,
           }}
         }}"#
    ))
  );
}

#[test]
fn schema_with_namespace_ties_every_declaration_to_it() {
  let schema = Schema {
    target_namespace: Some("http://example.com".to_string()),
    simple_type: vec![SimpleType {
      name: "Sample-type".to_string(),
      restriction: None,
      list: None,
      union: None,
    }],
    elements: vec![Element {
      name: "sample".to_string(),
      kind: Some("Sample-type".to_string()),
      ..Default::default()
    }],
    ..Default::default()
  };
  let context =
    XsdContext::new(r#"<xs:schema xmlns:xs="http://www.w3.org/2001/XMLSchema"></xs:schema>"#)
      .unwrap();
  assert_eq!(
    schema_tokens(
      &schema
        .implement("", &Some("st".to_string()), &context)
        .unwrap()
    ),
    schema_tokens(&format!(
      r#"pub mod xml_schema_types {{
           {DERIVES}
           #[yaserde(prefix = "st", namespace = "st: http://example.com")]
           pub struct SampleType {{
             #[yaserde(text)]
             pub content: std::string::String,
           }}
         }}
         {DERIVES}
         #[yaserde(prefix = "st", namespace = "st: http://example.com")]
         pub struct Sample {{
           #[yaserde(flatten)]
           pub content: xml_schema_types::SampleType,
         }}"#
    ))
  );
}

#[test]
fn failure_in_any_part_fails_the_whole_schema() {
  let schema = Schema {
    elements: vec![
      Element {
        name: "fine".to_string(),
        kind: Some("xs:string".to_string()),
        ..Default::default()
      },
      Element {
        name: "broken".to_string(),
        kind: Some("xs:nothing".to_string()),
        ..Default::default()
      },
    ],
    ..Default::default()
  };
  let context =
    XsdContext::new(r#"<xs:schema xmlns:xs="http://www.w3.org/2001/XMLSchema"></xs:schema>"#)
      .unwrap();
  let error = schema.implement("", &None, &context).unwrap_err();
  assert_eq!(error.kind, ErrorKind::UnsupportedType);
  assert_eq!(error.subject, "nothing");
  assert_eq!(error.message(), "type not implemented: nothing");
}

#[test]
fn complex_type_with_two_kinds_of_content_is_rejected() {
  let complex_type = ComplexType {
    name: "both".to_string(),
    sequence: Some(Sequence::default()),
    complex_content: Some(ComplexContent::default()),
    ..Default::default()
  };
  let context =
    XsdContext::new(r#"<xs:schema xmlns:xs="http://www.w3.org/2001/XMLSchema"></xs:schema>"#)
      .unwrap();
  let error = complex_type.implement("", &None, &context).unwrap_err();
  assert_eq!(error.kind, ErrorKind::AmbiguousType);
  assert_eq!(error.subject, "both");
}

#[test]
fn xsd_is_wrapped_in_a_module_named_after_it() {
  let content = r#"<xs:schema xmlns:xs="http://www.w3.org/2001/XMLSchema"></xs:schema>"#;
  let xsd = Xsd::new("ComplexTypeSchema".to_string(), content, &vec![], Schema::default()).unwrap();
  assert_eq!(
    schema_tokens(&implement_xsd(&xsd, Visibility::Public, &None).unwrap()),
    schema_tokens(
      "mod complex_type_schema { pub mod xml_schema_types { } } pub use complex_type_schema:: * ;"
    )
  );
  assert_eq!(
    schema_tokens(&implement_xsd(&xsd, Visibility::Inherited, &None).unwrap()),
    schema_tokens(
      "mod complex_type_schema { pub mod xml_schema_types { } } use complex_type_schema:: * ;"
    )
  );
}

#[test]
fn xsd_needs_a_schema_root() {
  let error = Xsd::new("Name".to_string(), "<a/>", &vec![], Schema::default()).unwrap_err();
  assert_eq!(error.kind, ErrorKind::SchemaNotFound);
}

#[test]
fn xsd_keeps_the_module_mappings() {
  let content =
    r#"<xs:schema xmlns:xs="http://www.w3.org/2001/XMLSchema" xmlns:a="urn:a"></xs:schema>"#;
  let mappings = vec![("urn:a".to_string(), "crate::a".to_string())];
  let xsd = Xsd::new("Name".to_string(), content, &mappings, Schema::default()).unwrap();
  assert_eq!(xsd.name, "Name");
  assert_eq!(xsd.context.get_module("a"), Some("crate::a".to_string()));
}

#[test]
fn byte_order_mark_is_dropped() {
  assert_eq!(strip_bom("\u{feff}<a/>"), "<a/>");
  assert_eq!(strip_bom("<a/>"), "<a/>");
  assert_eq!(strip_bom(""), "");
  assert_eq!(strip_bom("\u{feff}"), "");
  assert_eq!(strip_bom("a\u{feff}"), "a\u{feff}");
}

#[test]
#[should_panic]
fn missing_prefix() {
  let schema = Schema {
    target_namespace: Some("http://example.com".to_string()),
    ..Default::default()
  };

  let context =
    XsdContext::new(r#"<xs:schema xmlns:xs="http://www.w3.org/2001/XMLSchema"></xs:schema>"#)
      .unwrap();

  schema.implement("", &None, &context).unwrap();
}

#[test]
#[should_panic]
fn missing_target_namespace() {
  let schema = Schema::default();

  let context =
    XsdContext::new(r#"<xs:schema xmlns:xs="http://www.w3.org/2001/XMLSchema"></xs:schema>"#)
      .unwrap();

  schema
    .implement("", &Some("ex".to_string()), &context)
    .unwrap();
}

#[test]
fn documentation_is_written_as_escaped_literals() {
  let text = "He said \"hi\" \\ and left\nfor good";
  let element = Element {
    name: "note".to_string(),
    kind: Some("xs:string".to_string()),
    annotation: Some(xml_schema::Annotation {
      id: None,
      attributes: vec![],
      documentation: vec![text.to_string(), "second".to_string()],
    }),
    ..Default::default()
  };
  let context =
    XsdContext::new(r#"<xs:schema xmlns:xs="http://www.w3.org/2001/XMLSchema"></xs:schema>"#)
      .unwrap();
  let literal = proc_macro2::Literal::string(text).to_string();
  assert_eq!(
    schema_tokens(&element.implement("", &None, &context).unwrap()),
    schema_tokens(&format!(
      r#"#[doc = {literal}] #[doc = "second"] {DERIVES}
         pub struct Note {{ #[yaserde(text)] pub content: xml_schema_types::String, }}"#
    ))
  );
  let parsed = TokenStream::from_str(&element.implement("", &None, &context).unwrap()).unwrap();
  assert!(parsed.to_string().contains("pub struct Note"));
}

#[test]
fn complex_type_reaches_the_groups_of_its_context() {
  let complex_type = ComplexType {
    name: "book".to_string(),
    attributes: vec![Attribute {
      name: Some("isbn".to_string()),
      kind: Some("xs:string".to_string()),
      required: Required::Required,
      ..Default::default()
    }],
    attribute_groups: vec![AttributeGroup {
      name: None,
      reference: "common".to_string(),
      attributes: vec![],
    }],
    ..Default::default()
  };
  let groups = vec![AttributeGroup {
    name: Some("common".to_string()),
    reference: "".to_string(),
    attributes: vec![
      Attribute {
        name: Some("id".to_string()),
        kind: Some("xs:ID".to_string()),
        required: Required::Required,
        ..Default::default()
      },
      Attribute {
        name: Some("lang".to_string()),
        kind: Some("xs:language".to_string()),
        ..Default::default()
      },
    ],
  }];
  let context = XsdContext::new(
    r#"<xs:schema xmlns:xs="http://www.w3.org/2001/XMLSchema"></xs:schema>"#,
  )
  .unwrap()
  .with_attribute_groups(&groups);
  assert_eq!(context.attribute_groups(), &groups);
  let text = complex_type.implement("", &None, &context).unwrap();
  assert_eq!(
    schema_tokens(&text),
    schema_tokens(&format!(
      r#"{DERIVES}
         pub struct Book {{
           #[yaserde(attribute)]
           pub isbn: String ,
           #[yaserde(attribute)]
           pub id: String ,
           #[yaserde(attribute)]
           pub lang: Option<String> ,
         }}"#
    ))
  );
  assert_eq!(text.matches("#[yaserde(attribute)]").count(), 3);
  let inside = context.fork(true);
  assert_eq!(inside.attribute_groups(), &groups);
  assert_eq!(complex_type.implement("", &None, &inside).unwrap(), text);
}
