//! Tests of the JSON reader and writer.

use worktree_manager::json::array;
use worktree_manager::json::optional_bool;
use worktree_manager::json::optional_number;
use worktree_manager::json::optional_string;
use worktree_manager::json::parse;
use worktree_manager::json::string;
use worktree_manager::json::Object;
use worktree_manager::json::Value;

#[test]
fn escapes_json_control_characters() {
    assert_eq!(string("a\"b\\c\n\t"), r#""a\"b\\c\n\t""#);
}

#[test]
fn parses_protocol_objects_and_unicode_escapes() {
    let value = parse(r#"{"request_id":"one","params":{"path":"caf\u00e9 \ud83d\ude80"}}"#)
        .expect("JSON should parse");
    assert_eq!(value.required_string("request_id"), Ok("one"));
    assert_eq!(
        value
            .object_field("params")
            .expect("params should exist")
            .required_string("path"),
        Ok("café 🚀")
    );
}

#[test]
fn rejects_fractional_numbers_and_trailing_data() {
    assert!(parse("{\"value\":1.5}").is_err());
    assert!(parse("true false").is_err());
    assert_eq!(parse("null"), Ok(Value::Null));
}

#[test]
fn rejects_excessively_nested_json() {
    let nested = format!("{}0{}", "[".repeat(128), "]".repeat(128));
    assert!(parse(&nested).is_err());
}

#[test]
fn printed_values_are_read_back() {
    let value = Value::Object(vec![
        ("a".to_owned(), Value::Array(vec![Value::Null, Value::Bool(true), Value::Number(-7)])),
        ("b\u{1}\u{7f}\"\\/".to_owned(), Value::String("é🚀\r\n\t\u{8}\u{c}".to_owned())),
        ("a".to_owned(), Value::Number(i64::MIN)),
        ("c".to_owned(), Value::Number(i64::MAX)),
        ("d".to_owned(), Value::Object(Vec::new())),
    ]);
    assert_eq!(parse(&value.to_json()), Ok(value.clone()));
    assert_eq!(
        parse(" { \"x\" : [ 1 , -0 ] } "),
        Ok(Value::Object(vec![(
            "x".to_owned(),
            Value::Array(vec![Value::Number(1), Value::Number(0)])
        )]))
    );
}

#[test]
fn fields_are_found_by_name_and_type() {
    let value = parse(r#"{"a":"x","b":null,"n":3,"t":true,"a":"y"}"#).expect("parses");
    assert_eq!(value.required_string("a"), Ok("x"));
    assert_eq!(value.optional_string("b"), Ok(None));
    assert_eq!(value.optional_string("none"), Ok(None));
    assert_eq!(value.optional_i64("n"), Ok(Some(3)));
    assert_eq!(value.optional_bool("t"), Ok(Some(true)));
    assert!(value.required_string("n").is_err());
    assert!(value.required_string("none").is_err());
    assert!(value.optional_string("n").is_err());
    assert!(value.optional_i64("a").is_err());
    assert!(value.optional_bool("a").is_err());
    assert_eq!(value.as_object().map(|fields| fields.len()), Ok(5));
    assert!(Value::Null.as_object().is_err());
}

#[test]
fn rejects_what_is_not_json() {
    for text in [
        "", "{", "[1,]", "{\"a\"}", "{\"a\":}", "\"a", "\"\\x\"", "\"\\ud800\"", "01", "+1", "1e3",
        "tru", "9223372036854775808", "\"\n\"", "{a:1}", "-",
    ] {
        assert!(parse(text).is_err(), "{text:?} is accepted");
    }
    let error = parse("[1 2]").expect_err("no comma");
    assert!(error.to_text().contains(&format!("{}", error.position)));
}

#[test]
fn writes_fields_in_order() {
    let text = Object::new()
        .string("s", "x")
        .optional_string("o", None)
        .bool("b", false)
        .optional_bool("p", Some(true))
        .number("n", u64::MAX)
        .signed_number("m", -1)
        .optional_number("q", None)
        .optional_signed_number("r", Some(-2))
        .null("z")
        .raw("w", array(vec![string("a"), "1".to_owned()]))
        .finish();
    assert_eq!(
        text,
        "{\"s\":\"x\",\"o\":null,\"b\":false,\"p\":true,\"n\":18446744073709551615,\"m\":-1,\"q\":null,\"r\":-2,\"z\":null,\"w\":[\"a\",1]}"
    );
    assert_eq!(Object::new().finish(), "{}");
    assert_eq!(array(Vec::new()), "[]");
    assert_eq!(optional_string(Some("a")), "\"a\"");
    assert_eq!(optional_bool(None), "null");
    assert_eq!(optional_number(Some(4)), "4");
}

#[test]
fn arrays_of_texts_are_read_as_arrays_of_values() {
    let texts = vec![
        " 1 ".to_owned(),
        "[ null ,\"\\u0041\"]".to_owned(),
        "\n{\"a\" : -0}".to_owned(),
    ];
    assert_eq!(
        parse(&array(texts)),
        Ok(Value::Array(vec![
            Value::Number(1),
            Value::Array(vec![Value::Null, Value::String("A".to_owned())]),
            Value::Object(vec![("a".to_owned(), Value::Number(0))]),
        ]))
    );
    assert_eq!(array(Vec::new()), "[]");
    assert_eq!(parse(&array(Vec::new())), Ok(Value::Array(Vec::new())));
    let deepest = format!("{}{}", "[".repeat(128), "]".repeat(128));
    assert!(parse(&deepest).is_ok());
    assert!(parse(&array(vec![deepest])).is_err());
}
