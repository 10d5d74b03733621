use proc_macro2::TokenStream;
use std::str::FromStr;
use xml_schema::{ErrorKind, List, XsdContext};

#[test]
fn basic_list() {
  let context =
    XsdContext::new(r#"<xs:schema xmlns:xs="http://www.w3.org/2001/XMLSchema"></xs:schema>"#)
      .unwrap();

  let list_type = List {
    item_type: "xs:string".to_string(),
  };

  let implementation = list_type
    .implement_childs("", &None, &context, "Parent")
    .unwrap();

  let expected =
      TokenStream::from_str(r#"
        #[derive(Clone, Debug, Default, PartialEq)]
        pub struct Parent {
          pub items: Vec <String>
        }

        impl yaserde::YaDeserialize for Parent {
          fn deserialize<R: std::io::Read>(reader: &mut yaserde::de::Deserializer<R>) -> Result<Self, String> {
            loop {
              match reader.next_event()? {
                xml::reader::XmlEvent::StartElement{..} => { }
                xml::reader::XmlEvent::Characters(ref text_content) => {
                  let items: Vec<String> = text_content.split(' ')
                    .map(|item| item.to_owned())
                    .map(|item| item.parse().map_err(|_| "Unable to parse list item".to_string()))
                    .collect:: <Result<Vec<_> , String>>()? ;

                  return Ok(Parent{items});
                }
                _ => { break; }
              }
            }

            Err ("Unable to parse attribute" . to_string ())
          }
        }

        impl yaserde::YaSerialize for Parent {
          fn serialize<W: std::io::Write> (&self, writer: &mut yaserde::ser::Serializer<W>) -> Result<(), String> {
            let content = self
              .items
              .iter()
              .map(|item| item.to_string())
              .collect:: <Vec<String>>().join(" ");

            let data_event = xml::writer::XmlEvent::characters(&content);

            writer.write(data_event).map_err(|e| e.to_string())? ;

            Ok (())
          }

          fn serialize_attributes(
            &self,
            mut source_attributes: Vec<xml::attribute::OwnedAttribute> ,
            mut source_namespace: xml::namespace::Namespace
            ) -> Result<(Vec<xml::attribute::OwnedAttribute> , xml::namespace::Namespace), String> {
            Ok((source_attributes , source_namespace))
          }
        }
      "#).unwrap();

  assert_eq!(
    TokenStream::from_str(&implementation).unwrap().to_string(),
    expected.to_string()
  );
}

#[test]
fn list_of_unknown_items_is_unsupported() {
  let context =
    XsdContext::new(r#"<xs:schema xmlns:xs="http://www.w3.org/2001/XMLSchema"></xs:schema>"#)
      .unwrap();
  let list_type = List {
    item_type: "xs:colour".to_string(),
  };
  let error = list_type
    .implement_childs("", &None, &context, "Parent")
    .unwrap_err();
  assert_eq!(error.kind, ErrorKind::UnsupportedType);
}

#[test]
fn list_decoder_returns_the_first_failure() {
  let context =
    XsdContext::new(r#"<xs:schema xmlns:xs="http://www.w3.org/2001/XMLSchema"></xs:schema>"#)
      .unwrap();
  let list_type = List {
    item_type: "xs:integer".to_string(),
  };
  let implementation = list_type
    .implement_childs("", &None, &context, "Numbers")
    .unwrap();
  assert!(implementation.contains("pub items: Vec<i32>"));
  assert!(implementation.contains("Result<Vec<_> , String>>()? ;"));
  assert!(!implementation.contains("unwrap"));
  assert!(TokenStream::from_str(&implementation).is_ok());
}
