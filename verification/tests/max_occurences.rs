use xml_schema::{ErrorKind, MaxOccurences};

#[test]
fn max_occurences_literals() {
  assert_eq!(MaxOccurences::parse("unbounded"), Ok(MaxOccurences::Unbounded));
  assert_eq!(
    MaxOccurences::parse("5"),
    Ok(MaxOccurences::Number { value: 5 })
  );
  let error = MaxOccurences::parse("abc").unwrap_err();
  assert_eq!(error.kind, ErrorKind::Format);
  assert_eq!(error.subject, "abc");
}

#[test]
fn max_occurences_edges() {
  assert_eq!(
    MaxOccurences::parse("0"),
    Ok(MaxOccurences::Number { value: 0 })
  );
  assert_eq!(
    MaxOccurences::parse("+7"),
    Ok(MaxOccurences::Number { value: 7 })
  );
  assert_eq!(
    MaxOccurences::parse("007"),
    Ok(MaxOccurences::Number { value: 7 })
  );
  assert_eq!(
    MaxOccurences::parse("4294967295"),
    Ok(MaxOccurences::Number { value: 4294967295 })
  );
  assert!(MaxOccurences::parse("4294967296").is_err());
  assert!(MaxOccurences::parse("99999999999999999999999").is_err());
  assert!(MaxOccurences::parse("").is_err());
  assert!(MaxOccurences::parse("+").is_err());
  assert!(MaxOccurences::parse("-1").is_err());
  assert!(MaxOccurences::parse(" 5").is_err());
  assert!(MaxOccurences::parse("5 ").is_err());
  assert!(MaxOccurences::parse("1_000").is_err());
  assert!(MaxOccurences::parse("Unbounded").is_err());
  assert!(MaxOccurences::parse("٣").is_err());
}

#[test]
fn max_occurences_default_is_unbounded() {
  assert_eq!(MaxOccurences::default(), MaxOccurences::Unbounded);
}
