use local_agent::json::Json;

fn text(s: &str) -> Json {
    Json::Str(s.to_string())
}

fn object(entries: Vec<(&str, Json)>) -> Json {
    Json::Object(entries.into_iter().map(|(key, value)| (key.to_string(), value)).collect())
}

#[test]
fn json_parses_every_kind() {
    let json = Json::parse(r#"{"a":[null,true,"x"],"b":{"c":7}}"#).unwrap();
    assert_eq!(
        json.get("a"),
        Some(&Json::Array(vec![Json::Null, Json::Bool(true), text("x")]))
    );
    assert_eq!(json.get("b").unwrap().get("c").unwrap().as_u64(), Some(7));
    assert_eq!(json.get("missing"), None);
}

#[test]
fn json_parse_error_says_where() {
    let error = Json::parse("{").unwrap_err();
    assert_eq!(error, "EOF while parsing an object at line 1 column 1");
}

#[test]
fn json_text_is_compact_and_sorted() {
    let json = object(vec![("b", Json::Bool(false)), ("a", Json::Array(vec![Json::Null, text("q\"")]))]);
    assert_eq!(json.to_text(), r#"{"a":[null,"q\""],"b":false}"#);
}

#[test]
fn json_last_entry_counts() {
    let json = object(vec![("k", text("old")), ("k", text("new"))]);
    assert_eq!(json.get_str("k"), Some("new"));
    assert_eq!(json.to_text(), r#"{"k":"new"}"#);
    assert_eq!(json.take("k"), Some(text("new")));
    let nested = object(vec![
        ("a", text("1")),
        ("b", text("2")),
        ("a", object(vec![("x", Json::Null), ("x", Json::Bool(true)), ("y", Json::Null)])),
        ("b", text("3")),
    ]);
    assert_eq!(nested.to_text(), r#"{"a":{"x":true,"y":null},"b":"3"}"#);
}

#[test]
fn json_text_reads_back() {
    let json = object(vec![
        ("name", text("caf\u{e9} \n")),
        ("list", Json::Array(vec![Json::Null, Json::Bool(true), object(vec![])])),
    ]);
    let again = Json::parse(&json.to_text()).unwrap();
    assert_eq!(again.get_str("name"), Some("caf\u{e9} \n"));
    assert_eq!(again.to_value(), json.to_value());
}

#[test]
fn json_integers_read_back() {
    for text in ["0", "18446744073709551615", "-1", "-9223372036854775808"] {
        let json = Json::parse(text).unwrap();
        assert_eq!(json.to_text(), text);
        assert_eq!(Json::parse(&json.to_text()).unwrap(), json);
    }
}

#[test]
fn json_deep_text_reads_back_to_the_limit() {
    let mut json = Json::Null;
    for _ in 0..127 {
        json = Json::Array(vec![json]);
    }
    assert!(Json::parse(&json.to_text()).is_ok());
    let deeper = Json::Array(vec![json]);
    assert!(Json::parse(&deeper.to_text()).is_err());
}

#[test]
fn json_crosses_to_serde_and_back() {
    let value: serde_json::Value = serde_json::from_str(r#"{"x":[1,-2,2.5,"s",null]}"#).unwrap();
    let json = Json::from_value(value.clone());
    assert_eq!(json.to_value(), value);
    assert_eq!(json.clone(), json);
}

#[test]
fn json_u64_wants_an_integer_from_zero_up() {
    assert_eq!(Json::parse("0").unwrap().as_u64(), Some(0));
    assert_eq!(Json::parse("18446744073709551615").unwrap().as_u64(), Some(u64::MAX));
    assert_eq!(Json::parse("-1").unwrap().as_u64(), None);
    assert_eq!(Json::parse("1.0").unwrap().as_u64(), None);
    assert_eq!(Json::parse("\"1\"").unwrap().as_u64(), None);
}

#[test]
fn json_only_objects_have_keys() {
    assert_eq!(Json::Array(vec![Json::Null]).get("0"), None);
    assert_eq!(text("a").get_str("a"), None);
    assert_eq!(Json::Null.as_str(), None);
    assert_eq!(text("a").as_str(), Some("a"));
    assert_eq!(object(vec![("a", Json::Null)]).get_str("a"), None);
}

#[test]
fn json_null_and_empty_object() {
    assert!(Json::Null.is_null());
    assert!(!Json::Bool(false).is_null());
    assert!(object(vec![]).is_empty_object());
    assert_eq!(object(vec![]).to_text(), "{}");
    assert!(!object(vec![("a", Json::Null)]).is_empty_object());
    assert!(!Json::Array(vec![]).is_empty_object());
}
