use agent_tasks::json::{child_of, is_object, text_of, text_of_or, Json};
use agent_tasks::text::{contains, decimal_text, leading_text, same};
use agent_tasks::wire::parse_json;

#[test]
fn members_are_found() {
    let value = parse_json(r#"{"a": {"b": "c"}, "d": [1]}"#).unwrap();
    let inner = child_of(value.get("a"), "b");
    assert_eq!(inner.unwrap().as_str(), Some("c"));
    assert!(child_of(value.get("d"), "0").is_none());
    assert!(value.get("x").is_none());
    assert!(Json::Text("a".to_string()).get("a").is_none());
}

#[test]
fn the_later_of_two_members_counts() {
    let twice = Json::Object(vec![
        ("k".to_string(), Json::Text("first".to_string())),
        ("k".to_string(), Json::Text("second".to_string())),
    ]);
    assert_eq!(twice.get("k").unwrap().as_str(), Some("second"));
    let parsed = parse_json(r#"{"k": "first", "k": "second"}"#).unwrap();
    assert_eq!(parsed.get("k").unwrap().as_str(), Some("second"));
}

#[test]
fn texts_are_read() {
    let text = Json::Text("t".to_string());
    assert_eq!(text_of(Some(&text)), Some("t".to_string()));
    assert_eq!(text_of(Some(&Json::Null)), None);
    assert_eq!(text_of(None), None);
    assert_eq!(text_of_or(Some(&Json::Bool(true)), "d"), "d");
    assert_eq!(text_of_or(Some(&text), "d"), "t");
}

#[test]
fn objects_are_told_apart() {
    assert!(is_object(Some(&Json::Object(Vec::new()))));
    assert!(!is_object(Some(&Json::Array(Vec::new()))));
    assert!(!is_object(None));
}

#[test]
fn values_are_taken_over() {
    let text = r#"[null, true, 7, -7, 18446744073709551615, 0.5, "x", [], {"a": {}}]"#;
    let value: serde_json::Value = serde_json::from_str(text).unwrap();
    let shown = format!("{:?}", Json::from_value(value));
    assert_eq!(
        shown,
        "Array([Null, Bool(true), Number(Some(7)), Number(Some(-7)), Number(None), Number(None), \
         Text(\"x\"), Array([]), Object([(\"a\", Object([]))])])"
    );
}

#[test]
fn what_is_no_json_is_reported() {
    assert_eq!(parse_json("").unwrap_err(), "EOF while parsing a value at line 1 column 0");
    assert_eq!(parse_json("[1,]").unwrap_err(), "trailing comma at line 1 column 4");
}

#[test]
fn texts_are_compared_and_searched() {
    assert!(same("äb", "äb"));
    assert!(!same("ab", "abc"));
    assert!(!same("ab", "ac"));
    assert!(contains("hällo", "äl"));
    assert!(contains("abc", "abc"));
    assert!(contains("aaab", "aab"));
    assert!(contains("abc", ""));
    assert!(contains("", ""));
    assert!(!contains("abc", "ac"));
    assert!(!contains("ab", "abc"));
}

#[test]
fn numerals_and_prefixes_are_exact() {
    assert_eq!(decimal_text(0), "0");
    assert_eq!(decimal_text(-10), "-10");
    assert_eq!(decimal_text(i64::MAX), "9223372036854775807");
    assert_eq!(decimal_text(i64::MIN), "-9223372036854775808");
    assert_eq!(leading_text("äöü", 2), "äö");
    assert_eq!(leading_text("äöü", 9), "äöü");
}
