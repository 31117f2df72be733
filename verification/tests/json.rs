use chatgpt::json::Json;

#[test]
fn parse_reads_an_object() {
    let doc = Json::parse("{\"a\": 1, \"b\": [true, null, \"x\"]}").unwrap();
    assert_eq!(doc.member("a"), Some(&Json::Number("1".to_string())));
    assert_eq!(
        doc.member("b"),
        Some(&Json::Array(vec![Json::Bool(true), Json::Null, Json::Text("x".to_string())]))
    );
    assert_eq!(doc.member("c"), None);
}

#[test]
fn parse_refuses_a_fragment() {
    assert_eq!(Json::parse("{\"a\": "), None);
    assert_eq!(Json::parse("{} {}"), None);
}

#[test]
fn print_writes_a_compact_document() {
    let doc = Json::Object(vec![
        ("name".to_string(), Json::Text("a\"b".to_string())),
        ("n".to_string(), Json::Number("12".to_string())),
    ]);
    assert_eq!(doc.print(), Some("{\"n\":12,\"name\":\"a\\\"b\"}".to_string()));
    assert_eq!(Json::Number("one".to_string()).print(), None);
}

#[test]
fn unsigned_numbers_are_read_from_their_digits() {
    assert_eq!(Json::Number("0".to_string()).as_unsigned(), Some(0));
    assert_eq!(Json::Number("18446744073709551615".to_string()).as_unsigned(), Some(u64::MAX));
    assert_eq!(Json::Number("18446744073709551616".to_string()).as_unsigned(), None);
    assert_eq!(Json::Number("-1".to_string()).as_unsigned(), None);
    assert_eq!(Json::Number("1.5".to_string()).as_unsigned(), None);
    assert_eq!(Json::Number("".to_string()).as_unsigned(), None);
    assert_eq!(Json::Text("1".to_string()).as_unsigned(), None);
}

#[test]
fn a_copy_holds_the_same_value() {
    let doc = Json::parse("{\"a\": [1, {\"b\": null}], \"c\": \"d\"}").unwrap();
    assert_eq!(doc.clone(), doc);
}
