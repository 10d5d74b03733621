use proc_macro2::TokenStream;
use std::str::FromStr;
use xml_schema::{Attribute, ErrorKind, Required, Restriction, SimpleType, XsdContext};

fn attribute_tokens(text: &str) -> String {
  TokenStream::from_str(text).unwrap().to_string()
}

#[test]
fn default_required() {
  assert_eq!(Required::default(), Required::Optional);
}

#[test]
fn string_attribute() {
  let attribute = Attribute {
    name: Some("language".to_string()),
    kind: Some("xs:string".to_string()),
    reference: None,
    required: Required::Required,
    simple_type: None,
  };

  let context =
    XsdContext::new(r#"<xs:schema xmlns:xs="http://www.w3.org/2001/XMLSchema"></xs:schema>"#)
      .unwrap();

  let implementation = attribute_tokens(&attribute.implement("", &None, &context).unwrap());
  assert_eq!(
    implementation,
    TokenStream::from_str(r#"# [ yaserde ( attribute ) ] pub language : String ,"#)
      .unwrap()
      .to_string()
  );
}

#[test]
fn optional_string_attribute() {
  let attribute = Attribute {
    name: Some("language".to_string()),
    kind: Some("xs:string".to_string()),
    reference: None,
    required: Required::Optional,
    simple_type: None,
  };

  let context =
    XsdContext::new(r#"<xs:schema xmlns:xs="http://www.w3.org/2001/XMLSchema"></xs:schema>"#)
      .unwrap();

  let implementation = attribute_tokens(&attribute.implement("", &None, &context).unwrap());
  assert_eq!(
    implementation,
    TokenStream::from_str(r#"# [ yaserde ( attribute ) ] pub language : Option < String > ,"#)
      .unwrap()
      .to_string()
  );
}

#[test]
fn type_attribute() {
  let attribute = Attribute {
    name: Some("type".to_string()),
    kind: Some("xs:string".to_string()),
    reference: None,
    required: Required::Optional,
    simple_type: None,
  };

  let context =
    XsdContext::new(r#"<xs:schema xmlns:xs="http://www.w3.org/2001/XMLSchema"></xs:schema>"#)
      .unwrap();

  let implementation = attribute_tokens(&attribute.implement("", &None, &context).unwrap());
  assert_eq!(
    implementation,
    TokenStream::from_str(
      r#"# [ yaserde ( attribute , rename = "type" ) ] pub kind : Option < String > ,"#
    )
    .unwrap()
    .to_string()
  );
}

#[test]
fn reference_type_attribute() {
  let attribute = Attribute {
    name: Some("type".to_string()),
    kind: None,
    reference: Some("MyType".to_string()),
    required: Required::Optional,
    simple_type: None,
  };

  let context =
    XsdContext::new(r#"<xs:schema xmlns:xs="http://www.w3.org/2001/XMLSchema"></xs:schema>"#)
      .unwrap();

  let implementation = attribute_tokens(&attribute.implement("", &None, &context).unwrap());
  assert_eq!(
    implementation,
    TokenStream::from_str(
      r#"# [ yaserde ( attribute , rename = "type" ) ] pub kind : Option < MyType > ,"#
    )
    .unwrap()
    .to_string()
  );
}

#[test]
fn bad_type_attribute_is_ambiguous() {
  let attribute = Attribute {
    name: Some("type".to_string()),
    kind: None,
    reference: None,
    required: Required::Optional,
    simple_type: None,
  };

  let context =
    XsdContext::new(r#"<xs:schema xmlns:xs="http://www.w3.org/2001/XMLSchema"></xs:schema>"#)
      .unwrap();

  let error = attribute.implement("", &None, &context).unwrap_err();
  assert_eq!(error.kind, ErrorKind::AmbiguousType);
  assert_eq!(error.subject, "type");
}

#[test]
fn attribute_with_two_shapes_is_ambiguous() {
  let attribute = Attribute {
    name: Some("size".to_string()),
    kind: Some("xs:int".to_string()),
    reference: Some("other".to_string()),
    required: Required::Optional,
    simple_type: None,
  };

  let context =
    XsdContext::new(r#"<xs:schema xmlns:xs="http://www.w3.org/2001/XMLSchema"></xs:schema>"#)
      .unwrap();

  let error = attribute.implement("", &None, &context).unwrap_err();
  assert_eq!(error.kind, ErrorKind::AmbiguousType);
  assert_eq!(error.subject, "size");
}

#[test]
fn attribute_without_name() {
  let attribute = Attribute {
    name: None,
    kind: Some("xs:string".to_string()),
    reference: None,
    required: Required::Optional,
    simple_type: None,
  };

  let context =
    XsdContext::new(r#"<xs:schema xmlns:xs="http://www.w3.org/2001/XMLSchema"></xs:schema>"#)
      .unwrap();

  let implementation = attribute_tokens(&attribute.implement("", &None, &context).unwrap());
  assert_eq!(implementation, "".to_string());
}

#[test]
fn attribute_with_inline_simple_type_takes_the_restriction_base() {
  let attribute = Attribute {
    name: Some("Size-Class".to_string()),
    kind: None,
    reference: None,
    required: Required::Required,
    simple_type: Some(SimpleType {
      name: "".to_string(),
      restriction: Some(Restriction {
        base: Some("xs:unsignedInt".to_string()),
      }),
      list: None,
      union: None,
    }),
  };

  let context =
    XsdContext::new(r#"<xs:schema xmlns:xs="http://www.w3.org/2001/XMLSchema"></xs:schema>"#)
      .unwrap();

  let implementation = attribute_tokens(&attribute.implement("", &None, &context).unwrap());
  assert_eq!(
    implementation,
    attribute_tokens(r#"#[yaserde(attribute, rename = "Size-Class")] pub size_class: u32,"#)
  );
}

#[test]
fn attribute_of_unknown_primitive_is_unsupported() {
  let attribute = Attribute {
    name: Some("size".to_string()),
    kind: Some("xs:colour".to_string()),
    reference: None,
    required: Required::Optional,
    simple_type: None,
  };

  let context =
    XsdContext::new(r#"<xs:schema xmlns:xs="http://www.w3.org/2001/XMLSchema"></xs:schema>"#)
      .unwrap();

  let error = attribute.implement("", &None, &context).unwrap_err();
  assert_eq!(error.kind, ErrorKind::UnsupportedType);
  assert_eq!(error.subject, "colour");
}

#[test]
fn required_literals_are_matched_exactly() {
  assert_eq!(Required::parse("optional"), Some(Required::Optional));
  assert_eq!(Required::parse("required"), Some(Required::Required));
  assert_eq!(Required::parse("Required"), None);
  assert_eq!(Required::parse(""), None);
}

#[test]
#[should_panic]
fn bad_type_attribute() {
  let attribute = Attribute {
    name: Some("type".to_string()),
    kind: None,
    reference: None,
    required: Required::Optional,
    simple_type: None,
  };

  let context =
    XsdContext::new(r#"<xs:schema xmlns:xs="http://www.w3.org/2001/XMLSchema"></xs:schema>"#)
      .unwrap();

  attribute.implement("", &None, &context).unwrap();
}
