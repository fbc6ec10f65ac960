use telegram_codex_bridge::json::{named, optional_text_value, text_value, Json};

#[test]
fn text_is_parsed_into_values() {
    let value = Json::parse(r#" {"a": [1, -2, 3.5, true, null, "x"], "b": {}} "#).expect("json");
    assert!(value.is_object());
    let items = value.get("a").expect("a").as_array().expect("array");
    assert_eq!(items.len(), 6);
    assert_eq!(items[0].as_u64(), Some(1));
    assert_eq!(items[0].as_i64(), Some(1));
    assert_eq!(items[1].as_u64(), None);
    assert_eq!(items[1].as_i64(), Some(-2));
    assert_eq!(items[2].as_i64(), None);
    assert_eq!(items[2].as_u64(), None);
    assert!(matches!(items[3], Json::Bool(true)));
    assert!(items[4].is_null());
    assert_eq!(items[5].as_str(), Some("x"));
    assert!(value.get("b").expect("b").is_object());
    assert!(value.get("c").is_none());
    assert!(items[2].get("a").is_none());
}

#[test]
fn broken_text_is_refused() {
    for text in ["", "{", "[1,]", "{\"a\":1} x", "'a'", "nul", "01"] {
        assert!(Json::parse(text).is_none(), "{text}");
    }
}

#[test]
fn values_are_printed_compactly() {
    let value = Json::Object(vec![
        named("text", text_value("a\n\"b\"\u{1}")),
        named("list", Json::Array(vec![Json::Unsigned(1), Json::Signed(-1), Json::Signed(2)])),
        named("none", Json::Null),
    ]);
    let text = value.to_text();
    assert_eq!(text, r#"{"list":[1,-1,2],"none":null,"text":"a\n\"b\"\u0001"}"#);
    assert_eq!(Json::parse(&text).expect("json").to_text(), text);
}

#[test]
fn large_integers_survive() {
    let text = "[18446744073709551615,-9223372036854775808]";
    let value = Json::parse(text).expect("json");
    let items = value.as_array().expect("array");
    assert_eq!(items[0].as_u64(), Some(u64::MAX));
    assert_eq!(items[0].as_i64(), None);
    assert_eq!(items[1].as_i64(), Some(i64::MIN));
    assert_eq!(value.to_text(), text);
}

#[test]
fn decimals_keep_their_value() {
    let value = Json::parse("[1.5,1e3]").expect("json");
    assert_eq!(value.to_text(), "[1.5,1000.0]");
    assert_eq!(value.duplicate().to_text(), "[1.5,1000.0]");
}

#[test]
fn of_two_members_with_one_name_the_later_counts() {
    let built = Json::Object(vec![named("a", Json::Unsigned(1)), named("a", Json::Unsigned(2))]);
    assert_eq!(built.get("a").expect("a").as_u64(), Some(2));
    assert_eq!(built.to_text(), r#"{"a":2}"#);
    let parsed = Json::parse(r#"{"a":1,"a":2}"#).expect("json");
    assert_eq!(parsed.get("a").expect("a").as_u64(), Some(2));
}

#[test]
fn nested_text_is_found() {
    let value = Json::parse(r#"{"thread":{"id":"t"},"n":1}"#).expect("json");
    assert_eq!(value.text_in("thread", "id"), Some("t"));
    assert_eq!(value.text_in("thread", "name"), None);
    assert_eq!(value.text_in("n", "id"), None);
    assert_eq!(value.text("n"), None);
}

#[test]
fn optional_text_may_be_null() {
    assert_eq!(optional_text_value(&None).to_text(), "null");
    assert_eq!(optional_text_value(&Some("x".to_string())).to_text(), "\"x\"");
}

#[test]
fn deep_nesting_is_refused() {
    let open = "[".repeat(127);
    let close = "]".repeat(127);
    assert!(Json::parse(&format!("{open}{close}")).is_some());
    assert!(Json::parse(&format!("[{open}{close}]")).is_none());
}
