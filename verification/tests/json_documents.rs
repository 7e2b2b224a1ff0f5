use distant_search::json::{member, JsonValue};

fn document(value: &serde_json::Value) -> JsonValue {
    match value {
        serde_json::Value::Null => JsonValue::Null,
        serde_json::Value::Bool(b) => JsonValue::Bool(*b),
        serde_json::Value::Number(n) => match n.as_i64() {
            Some(i) => JsonValue::Int(i),
            None => JsonValue::Float(n.as_f64().unwrap().to_bits()),
        },
        serde_json::Value::String(s) => JsonValue::Str(s.clone()),
        serde_json::Value::Array(items) => JsonValue::Array(items.iter().map(document).collect()),
        serde_json::Value::Object(members) => {
            JsonValue::Object(members.iter().map(|(k, v)| (k.clone(), document(v))).collect())
        }
    }
}

fn parse(text: &str) -> JsonValue {
    document(&serde_json::from_str(text).unwrap())
}

#[test]
fn member_is_found_by_its_name() {
    let doc = parse(r#"{"a": 1, "b": "two", "c": null, "d": [true, false], "e": {"f": 2.5}}"#);
    assert_eq!(doc.get("a"), Some(&JsonValue::Int(1)));
    assert_eq!(doc.get("b"), Some(&JsonValue::text("two")));
    assert_eq!(doc.get("c"), Some(&JsonValue::Null));
    assert_eq!(doc.get("z"), None);
    assert_eq!(doc.get(""), None);
    assert_eq!(doc.get("e").unwrap().get("f"), Some(&JsonValue::Float(2.5f64.to_bits())));
}

#[test]
fn first_of_two_members_with_one_name_is_read() {
    let doc = JsonValue::object(vec![
        member("k", JsonValue::Int(1)),
        member("other", JsonValue::Null),
        member("k", JsonValue::Int(2)),
    ]);
    assert_eq!(doc.get("k"), Some(&JsonValue::Int(1)));
}

#[test]
fn only_an_object_has_members() {
    assert_eq!(JsonValue::Null.get("a"), None);
    assert_eq!(JsonValue::Int(1).get("a"), None);
    assert_eq!(JsonValue::text("a").get("a"), None);
    assert_eq!(parse(r#"[{"a": 1}]"#).get("a"), None);
}

#[test]
fn null_member_is_not_present() {
    let doc = parse(r#"{"a": null, "b": 0}"#);
    assert_eq!(doc.get_present("a"), None);
    assert_eq!(doc.get_present("b"), Some(&JsonValue::Int(0)));
    assert_eq!(doc.get_present("c"), None);
}

#[test]
fn typed_members() {
    let doc = parse(r#"{"n": -3, "t": "x", "b": true, "f": 1.5}"#);
    assert_eq!(doc.int_at("n"), Some(-3));
    assert_eq!(doc.int_at("t"), None);
    assert_eq!(doc.int_at("f"), None);
    assert_eq!(doc.int_at("missing"), None);
    assert_eq!(doc.text_at("t"), Some("x".to_string()));
    assert_eq!(doc.text_at("n"), None);
    assert_eq!(doc.bool_at("b"), Some(true));
    assert_eq!(doc.bool_at("n"), None);
}

#[test]
fn values_by_kind() {
    assert!(JsonValue::Null.is_null());
    assert!(!JsonValue::Int(0).is_null());
    assert_eq!(JsonValue::Bool(true).as_bool(), Some(true));
    assert_eq!(JsonValue::Int(1).as_bool(), None);
    assert_eq!(JsonValue::Int(i64::MIN).as_int(), Some(i64::MIN));
    assert_eq!(JsonValue::Float(0).as_int(), None);
    assert_eq!(JsonValue::text("a").as_text(), Some(&"a".to_string()));
    assert_eq!(JsonValue::Null.as_text(), None);
    assert_eq!(parse("[1, 2]").as_array(), Some(&vec![JsonValue::Int(1), JsonValue::Int(2)]));
    assert_eq!(parse("{}").as_array(), None);
}

#[test]
fn array_of_strings() {
    assert_eq!(parse(r#"["a", "", "c"]"#).as_texts(), Some(vec!["a".to_string(), String::new(), "c".to_string()]));
    assert_eq!(parse("[]").as_texts(), Some(vec![]));
    assert_eq!(parse(r#"["a", 1]"#).as_texts(), None);
    assert_eq!(parse(r#"["a", null]"#).as_texts(), None);
    assert_eq!(parse(r#""a""#).as_texts(), None);
    assert_eq!(
        JsonValue::texts(&vec!["x".to_string(), "y".to_string()]),
        JsonValue::array(vec![JsonValue::text("x"), JsonValue::text("y")])
    );
}

#[test]
fn copy_equals_the_document_it_was_made_of() {
    let doc = parse(r#"{"a": [1, {"b": [null, "c", 2.5, true]}], "d": {"e": {"f": []}}, "g": ""}"#);
    assert_eq!(doc.clone(), doc);
    assert_eq!(JsonValue::Null.clone(), JsonValue::Null);
}
