use proc_macro2::TokenStream;
use std::str::FromStr;
use xml_schema::{ErrorKind, Primitive, RustTypesMapping, XsdContext};

fn tokens_of_type(text: &str) -> String {
  TokenStream::from_str(text).unwrap().to_string()
}

#[test]
fn rust_mapping_types() {
  let context =
    XsdContext::new(r#"<xs:schema xmlns:xs="http://www.w3.org/2001/XMLSchema"></xs:schema>"#)
      .unwrap();

  assert!(RustTypesMapping::get(&context, "xs:boolean").unwrap() == "bool");
  assert!(RustTypesMapping::get(&context, "xs:positiveInteger").unwrap() == "u64");
  assert!(RustTypesMapping::get(&context, "xs:byte").unwrap() == "i8");
  assert!(RustTypesMapping::get(&context, "xs:unsignedByte").unwrap() == "u8");
  assert!(RustTypesMapping::get(&context, "xs:short").unwrap() == "i16");
  assert!(RustTypesMapping::get(&context, "xs:unsignedShort").unwrap() == "u16");
  assert!(RustTypesMapping::get(&context, "xs:int").unwrap() == "i32");
  assert!(RustTypesMapping::get(&context, "xs:integer").unwrap() == "i32");
  assert!(RustTypesMapping::get(&context, "xs:unsignedInt").unwrap() == "u32");
  assert!(RustTypesMapping::get(&context, "xs:long").unwrap() == "i64");
  assert!(RustTypesMapping::get(&context, "xs:unsignedLong").unwrap() == "u64");
  assert!(RustTypesMapping::get(&context, "xs:nonNegativeInteger").unwrap() == "u64");
  assert!(RustTypesMapping::get(&context, "xs:float").unwrap() == "f32");
  assert!(RustTypesMapping::get(&context, "xs:double").unwrap() == "f64");
  assert!(RustTypesMapping::get(&context, "xs:decimal").unwrap() == "String");
  assert!(RustTypesMapping::get(&context, "xs:string").unwrap() == "String");
  assert!(RustTypesMapping::get(&context, "xs:string").unwrap() == "String");
  assert!(RustTypesMapping::get(&context, "xs:ID").unwrap() == "String");
  assert!(RustTypesMapping::get(&context, "xs:IDREF").unwrap() == "String");
  assert!(RustTypesMapping::get(&context, "xs:IDREFS").unwrap() == "String");
  assert!(RustTypesMapping::get(&context, "xs:anyType").unwrap() == "String");

  assert!(RustTypesMapping::get(&context, "other:type").unwrap() == "Type");

  let context =
    XsdContext::new(r#"<schema xmlns="http://www.w3.org/2001/XMLSchema"></schema>"#).unwrap();

  assert!(RustTypesMapping::get(&context, "boolean").unwrap() == "bool");
}

#[test]
fn rust_bad_mapping_type_is_unsupported() {
  let context =
    XsdContext::new(r#"<xs:schema xmlns:xs="http://www.w3.org/2001/XMLSchema"></xs:schema>"#)
      .unwrap();

  let error = RustTypesMapping::get(&context, "xs:unknown").unwrap_err();
  assert_eq!(error.kind, ErrorKind::UnsupportedType);
  assert_eq!(error.subject, "unknown");
}

#[test]
fn extern_types() {
  let context = XsdContext::new(
    r#"
      <xs:schema
        xmlns:xs="http://www.w3.org/2001/XMLSchema"
        xmlns:example="http://example.com"
        >
      </xs:schema>
    "#,
  )
  .unwrap();

  let mapping = vec![(
    "http://example.com".to_string(),
    "rust_example_module".to_string(),
  )];

  let context = context.with_module_namespace_mappings(&mapping);
  assert_eq!(
    tokens_of_type(&RustTypesMapping::get(&context, "example:MyType").unwrap()),
    "rust_example_module :: MyType"
  );

  assert_eq!(
    tokens_of_type(&RustTypesMapping::get(&context, "example:").unwrap()),
    "rust_example_module :: String"
  );
}

#[test]
fn extern_types_in_default_namespace() {
  let context = XsdContext::new(
    r#"
      <xs:schema
        xmlns:xs="http://www.w3.org/2001/XMLSchema"
        xmlns="http://example.com"
        >
      </xs:schema>
    "#,
  )
  .unwrap();

  let mapping = vec![(
    "http://example.com".to_string(),
    "rust_example_module".to_string(),
  )];

  let context = context.with_module_namespace_mappings(&mapping);
  assert_eq!(
    tokens_of_type(&RustTypesMapping::get(&context, "MyType").unwrap()),
    "rust_example_module :: MyType"
  );

  assert_eq!(
    tokens_of_type(&RustTypesMapping::get(&context, "").unwrap()),
    "rust_example_module :: String"
  );
}

#[test]
fn is_xs_string() {
  let context = XsdContext::new(
    r#"
      <xs:schema
        xmlns:xs="http://www.w3.org/2001/XMLSchema"
        xmlns="http://example.com"
        >
      </xs:schema>
    "#,
  )
  .unwrap();

  assert_eq!(RustTypesMapping::is_xs_string(&context, "xs:string"), true);
  assert_eq!(RustTypesMapping::is_xs_string(&context, "MyType"), false);

  let context = XsdContext::new(
    r#"
      <schema
        xmlns="http://www.w3.org/2001/XMLSchema"
        xmlns:example="http://example.com"
        >
      </schema>
    "#,
  )
  .unwrap();

  assert_eq!(RustTypesMapping::is_xs_string(&context, "string"), true);
  assert_eq!(
    RustTypesMapping::is_xs_string(&context, "example:MyType"),
    false
  );
}

#[test]
fn is_xs_int_follows_the_schema_prefix() {
  let context =
    XsdContext::new(r#"<xs:schema xmlns:xs="http://www.w3.org/2001/XMLSchema"></xs:schema>"#)
      .unwrap();
  assert!(RustTypesMapping::is_xs_int(&context, "xs:int"));
  assert!(!RustTypesMapping::is_xs_int(&context, "int"));
  assert!(!RustTypesMapping::is_xs_int(&context, "xs:integer"));
  assert!(!RustTypesMapping::is_xs_int(&context, "xs:a:int"));
  assert!(!RustTypesMapping::is_xs_string(&context, "string"));
}

#[test]
fn more_than_one_colon_is_a_format_failure() {
  let context =
    XsdContext::new(r#"<xs:schema xmlns:xs="http://www.w3.org/2001/XMLSchema"></xs:schema>"#)
      .unwrap();
  let error = RustTypesMapping::get(&context, "a:b:c").unwrap_err();
  assert_eq!(error.kind, ErrorKind::Format);
  assert_eq!(error.subject, "a:b:c");
  let error = RustTypesMapping::get(&context, "::").unwrap_err();
  assert_eq!(error.kind, ErrorKind::Format);
}

#[test]
fn mapping_does_not_depend_on_earlier_calls() {
  let context =
    XsdContext::new(r#"<xs:schema xmlns:xs="http://www.w3.org/2001/XMLSchema"></xs:schema>"#)
      .unwrap();
  let first = RustTypesMapping::get(&context, "other:Foo").unwrap();
  assert!(RustTypesMapping::get(&context, "xs:unknownType").is_err());
  assert_eq!(RustTypesMapping::get(&context, "xs:string").unwrap(), "String");
  let second = RustTypesMapping::get(&context, "other:Foo").unwrap();
  assert_eq!(first, "Foo");
  assert_eq!(second, "Foo");
  assert!(RustTypesMapping::get(&context, "xs:unknownType").is_err());
}

#[test]
fn names_are_converted_to_upper_camel_case() {
  let context =
    XsdContext::new(r#"<xs:schema xmlns:xs="http://www.w3.org/2001/XMLSchema"></xs:schema>"#)
      .unwrap();
  assert_eq!(RustTypesMapping::get(&context, "volume-type").unwrap(), "VolumeType");
  assert_eq!(RustTypesMapping::get(&context, "tns:some.dotted_name").unwrap(), "SomeDottedName");
}

#[test]
fn a_name_that_is_no_type_path_is_a_format_failure() {
  let context = XsdContext::new(
    r#"<xs:schema xmlns:xs="http://www.w3.org/2001/XMLSchema" xmlns:a="urn:a"></xs:schema>"#,
  )
  .unwrap();
  let mapping = vec![("urn:a".to_string(), "not a path".to_string())];
  let context = context.with_module_namespace_mappings(&mapping);
  let error = RustTypesMapping::get(&context, "a:Thing").unwrap_err();
  assert_eq!(error.kind, ErrorKind::Format);
  assert_eq!(error.subject, "not a path::Thing");
}

#[test]
fn primitive_table() {
  assert_eq!(Primitive::lookup("gYear"), Some(Primitive::UInt16));
  assert_eq!(Primitive::lookup("bool"), Some(Primitive::Bool));
  assert_eq!(Primitive::lookup("dateTime"), Some(Primitive::Text));
  assert_eq!(Primitive::lookup("hexBinary"), Some(Primitive::Text));
  assert_eq!(Primitive::lookup("base64Binary"), Some(Primitive::Text));
  assert_eq!(Primitive::lookup("duration"), Some(Primitive::Text));
  assert_eq!(Primitive::lookup("anyURI"), Some(Primitive::Text));
  assert_eq!(Primitive::lookup("token"), Some(Primitive::Text));
  assert_eq!(Primitive::lookup("language"), Some(Primitive::Text));
  assert_eq!(Primitive::lookup("normalizedString"), Some(Primitive::Text));
  assert_eq!(Primitive::lookup("String"), None);
  assert_eq!(Primitive::lookup(""), None);
  assert_eq!(Primitive::Float64.rust_name(), "f64");
  assert_eq!(Primitive::Text.rust_name(), "String");
}

#[test]
#[should_panic]
fn rust_bad_mapping_type() {
  let context =
    XsdContext::new(r#"<xs:schema xmlns:xs="http://www.w3.org/2001/XMLSchema"></xs:schema>"#)
      .unwrap();

  RustTypesMapping::get(&context, "xs:unknown").unwrap();
}

#[test]
fn unresolved_prefix_gives_an_unqualified_name() {
  let context = XsdContext::new(
    r#"
      <xs:schema
        xmlns:xs="http://www.w3.org/2001/XMLSchema"
        xmlns="http://example.com"
        xmlns:known="urn:known"
        xmlns:unknown="urn:unknown"
        >
      </xs:schema>
    "#,
  )
  .unwrap();
  let mapping = vec![
    ("http://example.com".to_string(), "crate::own".to_string()),
    ("urn:known".to_string(), "crate::known".to_string()),
  ];
  let context = context.with_module_namespace_mappings(&mapping);
  assert_eq!(RustTypesMapping::get(&context, "Thing").unwrap(), "crate::own::Thing");
  assert_eq!(
    RustTypesMapping::get(&context, "known:Thing").unwrap(),
    "crate::known::Thing"
  );
  assert_eq!(RustTypesMapping::get(&context, "unknown:Thing").unwrap(), "Thing");
  assert_eq!(RustTypesMapping::get(&context, "unbound:Thing").unwrap(), "Thing");
}

#[test]
fn module_paths_are_identifiers_joined_by_double_colons() {
  let check = |module: &str| {
    let context = XsdContext::new(
      r#"<xs:schema xmlns:xs="http://www.w3.org/2001/XMLSchema" xmlns:a="urn:a"></xs:schema>"#,
    )
    .unwrap();
    let mapping = vec![("urn:a".to_string(), module.to_string())];
    let context = context.with_module_namespace_mappings(&mapping);
    RustTypesMapping::get(&context, "a:Thing")
  };
  assert_eq!(check("crate::a::b").unwrap(), "crate::a::b::Thing");
  assert_eq!(check("m\u{e9}tier").unwrap(), "m\u{e9}tier::Thing");
  assert_eq!(check("_x1").unwrap(), "_x1::Thing");
  for bad in [
    "", "a:b", "a:::b", "a::", "::a", " a", "a ", "a /* c */", "1a", "a-b", "a::<B>", "r#a",
  ] {
    let error = check(bad).unwrap_err();
    assert_eq!(error.kind, ErrorKind::Format);
  }
}
