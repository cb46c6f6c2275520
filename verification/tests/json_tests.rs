use ocr_service::json::Json;
use ocr_service::number::Number;

fn json_num(value: f64) -> Json {
    Json::Number(Number::from_bits(value.to_bits()))
}

#[test]
fn parse_reads_every_kind_of_value() {
    let doc = Json::parse("{\"a\": null, \"b\": true, \"c\": 1.5, \"d\": \"hi\", \"e\": [1, -2]}")
        .unwrap();
    let expected = Json::Object(vec![
        ("a".to_string(), Json::Null),
        ("b".to_string(), Json::Bool(true)),
        ("c".to_string(), json_num(1.5)),
        ("d".to_string(), Json::Str("hi".to_string())),
        ("e".to_string(), Json::Array(vec![json_num(1.0), json_num(-2.0)])),
    ]);
    assert_eq!(doc, expected);
}

#[test]
fn parse_reads_nested_documents() {
    let doc = Json::parse("[[{\"k\": [\"v\"]}]]").unwrap();
    let inner = Json::Object(vec![(
        "k".to_string(),
        Json::Array(vec![Json::Str("v".to_string())]),
    )]);
    assert_eq!(doc, Json::Array(vec![Json::Array(vec![inner])]));
}

#[test]
fn parse_reports_a_syntax_error_with_the_parser_message() {
    let message = Json::parse("{").unwrap_err();
    let expected = serde_json::from_str::<serde_json::Value>("{").unwrap_err().to_string();
    assert_eq!(message, expected);
    assert!(!message.is_empty());
}

#[test]
fn parse_takes_integers_as_doubles() {
    let doc = Json::parse("9007199254740993").unwrap();
    assert_eq!(doc, json_num(9007199254740993u64 as f64));
}

#[test]
fn get_finds_a_member_of_an_object() {
    let doc = Json::parse("{\"x\": 1, \"result\": \"r\"}").unwrap();
    assert_eq!(doc.get("result"), Some(&Json::Str("r".to_string())));
    assert_eq!(doc.get("missing"), None);
}

#[test]
fn get_takes_the_first_member_of_a_name() {
    let doc = Json::Object(vec![
        ("k".to_string(), Json::Bool(true)),
        ("k".to_string(), Json::Bool(false)),
    ]);
    assert_eq!(doc.get("k"), Some(&Json::Bool(true)));
}

#[test]
fn get_finds_nothing_in_what_is_no_object() {
    assert_eq!(Json::parse("[1]").unwrap().get("0"), None);
    assert_eq!(Json::Null.get("a"), None);
    assert_eq!(Json::Str("a".to_string()).get("a"), None);
}

#[test]
fn at_indexes_arrays_only() {
    let doc = Json::parse("[\"a\", \"b\"]").unwrap();
    assert_eq!(doc.at(0), Some(&Json::Str("a".to_string())));
    assert_eq!(doc.at(1), Some(&Json::Str("b".to_string())));
    assert_eq!(doc.at(2), None);
    assert_eq!(Json::parse("{\"0\": 1}").unwrap().at(0), None);
}

#[test]
fn accessors_tell_the_kinds_apart() {
    let array = Json::parse("[1]").unwrap();
    let object = Json::parse("{}").unwrap();
    let text = Json::parse("\"t\"").unwrap();
    let number = Json::parse("2.5").unwrap();
    assert!(array.is_array() && !array.is_object());
    assert!(object.is_object() && !object.is_array());
    assert_eq!(array.as_array().map(|items| items.len()), Some(1));
    assert!(object.as_array().is_none());
    assert_eq!(text.as_str(), Some("t"));
    assert_eq!(number.as_str(), None);
    assert_eq!(number.as_number(), Some(Number::from_bits(2.5f64.to_bits())));
    assert_eq!(text.as_number(), None);
}
