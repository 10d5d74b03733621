use proc_macro2::TokenStream;
use std::str::FromStr;
use xml_schema::{Element, ErrorKind, Group, Sequence, XsdContext};

#[test]
fn check_group_implementation() {
  let group = Group {
    name: Some("groupthing".to_string()),
    reference: None,
    sequence: Some(Sequence {
      elements: vec![
        Element {
          name: "CX_X".to_string(),
          kind: Some("asdfg".to_string()),
          ..Default::default()
        },
        Element {
          name: "CY_X".to_string(),
          kind: Some("asdfg".to_string()),
          ..Default::default()
        },
      ],
    }),
  };

  let context =
    XsdContext::new(r#"<xs:schema xmlns:xs="http://www.w3.org/2001/XMLSchema"></xs:schema>"#)
      .unwrap();

  let implementation = format!(
    "{}",
    TokenStream::from_str(&group.implement("", &None, &context).unwrap()).unwrap()
  );

  assert_eq!(implementation, "# [derive (Clone , Debug , Default , PartialEq , serde :: Deserialize , serde :: Serialize)] \
pub struct Groupthing { \
# [yaserde (rename = \"CX_X\")] pub cx_x : xml_schema_types :: Asdfg , \
# [yaserde (rename = \"CY_X\")] pub cy_x : xml_schema_types :: Asdfg , }");
}

#[test]
fn check_group_ref() {
  let group = Group {
    name: None,
    reference: Some("bla:groupthing".to_string()),
    sequence: None,
  };

  let context =
    XsdContext::new(r#"<xs:schema xmlns:xs="http://www.w3.org/2001/XMLSchema"></xs:schema>"#)
      .unwrap();

  let type_implementation = format!(
    "{}",
    TokenStream::from_str(&group.get_type_implementation(&context, &None).unwrap()).unwrap()
  );

  assert_eq!(type_implementation, "Groupthing");
}

#[test]
fn group_without_name_declares_nothing() {
  let group = Group {
    name: None,
    reference: Some("bla:groupthing".to_string()),
    sequence: None,
  };
  let context =
    XsdContext::new(r#"<xs:schema xmlns:xs="http://www.w3.org/2001/XMLSchema"></xs:schema>"#)
      .unwrap();
  assert_eq!(group.implement("", &None, &context).unwrap(), "");
}

#[test]
fn group_without_reference_has_no_type() {
  let group = Group {
    name: Some("groupthing".to_string()),
    reference: None,
    sequence: None,
  };
  let context =
    XsdContext::new(r#"<xs:schema xmlns:xs="http://www.w3.org/2001/XMLSchema"></xs:schema>"#)
      .unwrap();
  let error = group.get_type_implementation(&context, &None).unwrap_err();
  assert_eq!(error.kind, ErrorKind::MissingReference);
  assert_eq!(error.subject, "group");
}
