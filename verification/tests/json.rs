use gpttools::json::{encode_document, parse_document, JsonDoc};

fn doc(text: &str) -> JsonDoc {
    parse_document(text.as_bytes()).expect("json")
}

fn text_of(doc: &JsonDoc) -> String {
    String::from_utf8(encode_document(doc).expect("bytes")).expect("utf-8")
}

#[test]
fn parsing_gives_the_document_tree() {
    assert_eq!(doc("null"), JsonDoc::Null);
    assert_eq!(doc(" true "), JsonDoc::Bool(true));
    assert_eq!(doc("-12"), JsonDoc::Integer(-12));
    assert_eq!(doc("9223372036854775807"), JsonDoc::Integer(i64::MAX));
    assert_eq!(doc("9223372036854775808"), JsonDoc::Unsigned(9223372036854775808));
    assert_eq!(doc("1.5"), JsonDoc::Fraction("1.5".to_string()));
    assert_eq!(doc("\"a\\nb\""), JsonDoc::Text("a\nb".to_string()));
    assert_eq!(
        doc("[1,[\"x\"],{}]"),
        JsonDoc::Array(vec![
            JsonDoc::Integer(1),
            JsonDoc::Array(vec![JsonDoc::Text("x".to_string())]),
            JsonDoc::Object(Vec::new()),
        ])
    );
    assert_eq!(
        doc("{\"b\":1,\"a\":{\"c\":null}}"),
        JsonDoc::Object(vec![
            ("a".to_string(), JsonDoc::Object(vec![("c".to_string(), JsonDoc::Null)])),
            ("b".to_string(), JsonDoc::Integer(1)),
        ])
    );
    assert_eq!(parse_document(b""), None);
    assert_eq!(parse_document(b"{"), None);
    assert_eq!(parse_document(b"{} x"), None);
    assert_eq!(parse_document(b"\xff"), None);
}

#[test]
fn writing_gives_json_text() {
    assert_eq!(text_of(&JsonDoc::Null), "null");
    assert_eq!(text_of(&JsonDoc::Bool(false)), "false");
    assert_eq!(text_of(&JsonDoc::Integer(i64::MIN)), "-9223372036854775808");
    assert_eq!(text_of(&JsonDoc::Unsigned(u64::MAX)), "18446744073709551615");
    assert_eq!(text_of(&JsonDoc::Fraction("0.25".to_string())), "0.25");
    assert_eq!(text_of(&JsonDoc::Fraction("-1.5e3".to_string())), "-1500.0");
    assert_eq!(text_of(&JsonDoc::Text("a\"b".to_string())), "\"a\\\"b\"");
    assert_eq!(
        text_of(&JsonDoc::Array(vec![JsonDoc::Integer(1), JsonDoc::Object(Vec::new())])),
        "[1,{}]"
    );
    assert_eq!(
        text_of(&JsonDoc::Object(vec![
            ("b".to_string(), JsonDoc::Integer(1)),
            ("a".to_string(), JsonDoc::Array(Vec::new())),
        ])),
        "{\"a\":[],\"b\":1}"
    );
}

#[test]
fn a_number_text_that_is_no_number_is_not_written() {
    for text in ["not a number", "", "1.5x", " 1.5", "[1]", "1e999", "NaN", "0x10", "01"] {
        assert_eq!(encode_document(&JsonDoc::Fraction(text.to_string())), None, "{text}");
    }
    let nested = JsonDoc::Object(vec![(
        "a".to_string(),
        JsonDoc::Array(vec![JsonDoc::Integer(1), JsonDoc::Fraction("x".to_string())]),
    )]);
    assert_eq!(encode_document(&nested), None);
    let fine = JsonDoc::Object(vec![(
        "a".to_string(),
        JsonDoc::Array(vec![JsonDoc::Integer(1), JsonDoc::Fraction("2.5".to_string())]),
    )]);
    assert_eq!(text_of(&fine), "{\"a\":[1,2.5]}");
}

#[test]
fn parse_and_write_round_trip() {
    for text in [
        "{\"a\":[1,2.5,-3,1e300,18446744073709551615],\"b\":{\"c\":\"d\",\"e\":null},\"f\":true}",
        "[]",
        "\"\\u00e9\"",
        "0.1",
    ] {
        let first = doc(text);
        let written = text_of(&first);
        assert_eq!(doc(&written), first, "{text}");
        let expected: serde_json::Value = serde_json::from_str(text).expect("json");
        let got: serde_json::Value = serde_json::from_str(&written).expect("json");
        assert_eq!(got, expected, "{text}");
    }
}

#[test]
fn members_are_found_by_name() {
    let object = doc("{\"model\":\"m\",\"stream\":true,\"n\":3}");
    assert_eq!(object.member("model"), Some(&JsonDoc::Text("m".to_string())));
    assert_eq!(object.member("stream").and_then(JsonDoc::as_flag), Some(true));
    assert_eq!(object.member("n").and_then(JsonDoc::as_integer), Some(3));
    assert_eq!(object.member("model").and_then(JsonDoc::as_text), Some("m"));
    assert_eq!(object.member("Model"), None);
    assert_eq!(object.member(""), None);
    assert_eq!(doc("[1]").member("0"), None);
    assert_eq!(doc("\"model\"").member("model"), None);
    assert!(object.is_object());
    assert!(!doc("[]").is_object());
    assert_eq!(JsonDoc::Integer(1).as_text(), None);
    assert_eq!(JsonDoc::Text("true".to_string()).as_flag(), None);
    assert_eq!(JsonDoc::Unsigned(1 << 63).as_integer(), None);
    assert_eq!(JsonDoc::Fraction("1.0".to_string()).as_integer(), None);
}

#[test]
fn members_are_replaced_in_place_or_added_last() {
    let object = doc("{\"a\":1,\"b\":2,\"c\":3}");
    let replaced = object.with("b", JsonDoc::Null);
    assert_eq!(
        replaced,
        JsonDoc::Object(vec![
            ("a".to_string(), JsonDoc::Integer(1)),
            ("b".to_string(), JsonDoc::Null),
            ("c".to_string(), JsonDoc::Integer(3)),
        ])
    );
    let added = replaced.with("d", JsonDoc::text("x"));
    assert_eq!(added.member("d"), Some(&JsonDoc::Text("x".to_string())));
    assert_eq!(text_of(&added), "{\"a\":1,\"b\":null,\"c\":3,\"d\":\"x\"}");
    assert_eq!(JsonDoc::Integer(1).with("a", JsonDoc::Null), JsonDoc::Integer(1));
    assert_eq!(JsonDoc::object(), JsonDoc::Object(Vec::new()));
    assert_eq!(JsonDoc::text("t"), JsonDoc::Text("t".to_string()));
}

#[test]
fn copies_are_equal_to_what_they_copy() {
    let source = doc("{\"a\":[1,{\"b\":[null,2.5,\"x\"]}],\"c\":18446744073709551615}");
    assert_eq!(source.copy(), source);
    assert_eq!(JsonDoc::Null.copy(), JsonDoc::Null);
}
