use xml_schema::xsd_context::{StartTag, Token};
use xml_schema::{ErrorKind, XsdContext};

#[test]
fn get_module() {
  let context = XsdContext::new(
    r#"
    <xs:schema
      xmlns:xs="http://www.w3.org/2001/XMLSchema"
      xmlns:example="http://example.com"
      >
    </xs:schema>
  "#,
  )
  .unwrap();

  let mapping = vec![(
    "http://example.com".to_string(),
    "crate::example".to_string(),
  )];
  let context = context.with_module_namespace_mappings(&mapping);

  assert_eq!(
    context.get_module("example"),
    Some("crate::example".to_string())
  );
  assert_eq!(context.get_module("other"), None);
}

#[test]
fn bad_schema_definition() {
  let context = XsdContext::new(
    r#"
    <xs:schema
      xmlns="http://www.w3.org/2001/XMLSchema"
      >
    </xs:schema>
  "#,
  );

  assert!(context.is_err());
}

#[test]
fn missing_schema_root_is_reported() {
  let error = XsdContext::new("<root></root>").unwrap_err();
  assert_eq!(error.kind, ErrorKind::SchemaNotFound);
  assert_eq!(error.subject, "");

  let error = XsdContext::new("").unwrap_err();
  assert_eq!(error.kind, ErrorKind::SchemaNotFound);
}

#[test]
fn schema_prefix_is_recorded() {
  let context =
    XsdContext::new(r#"<xs:schema xmlns:xs="http://www.w3.org/2001/XMLSchema"></xs:schema>"#)
      .unwrap();
  assert!(context.has_xml_schema_prefix());
  assert!(context.match_xml_schema_prefix("xs"));
  assert!(!context.match_xml_schema_prefix("xsd"));
  assert!(!context.is_in_sub_module());

  let context =
    XsdContext::new(r#"<schema xmlns="http://www.w3.org/2001/XMLSchema"></schema>"#).unwrap();
  assert!(!context.has_xml_schema_prefix());
  assert!(!context.match_xml_schema_prefix("xs"));
}

#[test]
fn schema_root_is_found_below_another_root() {
  let context = XsdContext::new(
    r#"<wrapper><xsd:schema xmlns:xsd="http://www.w3.org/2001/XMLSchema"></xsd:schema></wrapper>"#,
  )
  .unwrap();
  assert!(context.match_xml_schema_prefix("xsd"));
}

#[test]
fn schema_of_another_namespace_is_not_a_root() {
  let context = XsdContext::new(r#"<xs:schema xmlns:xs="http://example.com"></xs:schema>"#);
  assert!(context.is_err());
}

#[test]
fn sub_module_marker_is_forked_not_shared() {
  let mut context =
    XsdContext::new(r#"<xs:schema xmlns:xs="http://www.w3.org/2001/XMLSchema"></xs:schema>"#)
      .unwrap();
  let inside = context.fork(true);
  assert!(inside.is_in_sub_module());
  assert!(!context.is_in_sub_module());
  assert!(inside.match_xml_schema_prefix("xs"));

  context.set_is_in_sub_module(true);
  assert!(context.is_in_sub_module());
  context.set_is_in_sub_module(false);
  assert!(!context.is_in_sub_module());
}

#[test]
fn last_mapping_of_a_namespace_decides() {
  let context = XsdContext::new(
    r#"<xs:schema xmlns:xs="http://www.w3.org/2001/XMLSchema" xmlns:a="urn:a"></xs:schema>"#,
  )
  .unwrap();
  let mapping = vec![
    ("urn:b".to_string(), "other".to_string()),
    ("urn:a".to_string(), "first".to_string()),
    ("urn:a".to_string(), "second".to_string()),
  ];
  let context = context.with_module_namespace_mappings(&mapping);
  assert_eq!(context.get_module("a"), Some("second".to_string()));
  assert_eq!(context.get_module("b"), None);
}

#[test]
fn forked_context_keeps_bindings_and_mappings() {
  let context = XsdContext::new(
    r#"<xs:schema xmlns:xs="http://www.w3.org/2001/XMLSchema" xmlns:a="urn:a"></xs:schema>"#,
  )
  .unwrap();
  let mapping = vec![("urn:a".to_string(), "crate::a".to_string())];
  let context = context.with_module_namespace_mappings(&mapping);
  let inside = context.fork(true);
  assert_eq!(inside.get_module("a"), Some("crate::a".to_string()));
  assert_eq!(inside.get_module("xs"), None);
  assert!(inside.has_xml_schema_prefix());
}

#[test]
fn context_from_reader_events() {
  let tag = |uri: Option<&str>, local: &str, prefix: Option<&str>| {
    Token::Start(StartTag {
      uri: uri.map(|u| u.to_string()),
      local_name: local.to_string(),
      prefix: prefix.map(|p| p.to_string()),
      scope: xml::namespace::Namespace::empty(),
    })
  };
  let schema_uri = "http://www.w3.org/2001/XMLSchema";

  let context = XsdContext::from_tokens(vec![
    Token::Other,
    tag(None, "wrapper", None),
    tag(Some(schema_uri), "element", Some("xs")),
    tag(Some(schema_uri), "schema", Some("first")),
    tag(Some(schema_uri), "schema", Some("second")),
    Token::Failure,
  ])
  .unwrap();
  assert!(context.match_xml_schema_prefix("first"));
  assert_eq!(context.get_module(""), None);

  let error = XsdContext::from_tokens(vec![
    Token::Other,
    Token::Failure,
    tag(Some(schema_uri), "schema", Some("xs")),
  ])
  .unwrap_err();
  assert_eq!(error.kind, ErrorKind::SchemaNotFound);

  assert!(XsdContext::from_tokens(vec![]).is_err());
  assert!(XsdContext::from_tokens(vec![tag(None, "schema", None)]).is_err());
  assert!(XsdContext::from_tokens(vec![tag(Some("urn:x"), "schema", Some("xs"))]).is_err());
}
