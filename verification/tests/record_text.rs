use lp::record_text::parse_record;

#[test]
fn parse_record_reads_a_toml_document() {
    let value = parse_record("name = \"Nujabes\"\n[dates]\nstarted = 1974\n").unwrap();
    assert_eq!(value["name"].as_str(), Some("Nujabes"));
    assert_eq!(value["dates"]["started"].as_integer(), Some(1974));
}

#[test]
fn parse_record_of_empty_text_is_an_empty_table() {
    let value = parse_record("").unwrap();
    assert!(value.as_table().map_or(false, |t| t.is_empty()));
}

#[test]
fn parse_record_refuses_text_that_is_not_toml() {
    let err = parse_record("name = ").unwrap_err();
    assert!(!err.is_empty());
    assert!(parse_record("[a\nb = 1").is_err());
}
