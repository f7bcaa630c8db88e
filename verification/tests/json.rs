use mangadex_wasm::json::{parse_json, Json};

fn text(s: &str) -> Json {
    Json::Text(s.to_string())
}

#[test]
fn parse_scalars() {
    assert_eq!(parse_json("null"), Some(Json::Null));
    assert_eq!(parse_json("true"), Some(Json::Bool(true)));
    assert_eq!(parse_json(" false "), Some(Json::Bool(false)));
    assert_eq!(parse_json("\"a\\u00e9\\n\""), Some(text("aé\n")));
}

#[test]
fn parse_numbers() {
    assert_eq!(parse_json("0"), Some(Json::Number(Some(0))));
    assert_eq!(parse_json("-17"), Some(Json::Number(Some(-17))));
    assert_eq!(parse_json("9223372036854775807"), Some(Json::Number(Some(i64::MAX))));
    assert_eq!(parse_json("-9223372036854775808"), Some(Json::Number(Some(i64::MIN))));
    assert_eq!(parse_json("9223372036854775808"), Some(Json::Number(None)));
    assert_eq!(parse_json("1.5"), Some(Json::Number(None)));
    assert_eq!(parse_json("1e2"), Some(Json::Number(None)));
    assert_eq!(parse_json("-0"), Some(Json::Number(None)));
}

#[test]
fn parse_arrays_in_order() {
    assert_eq!(
        parse_json("[3, \"x\", [], {}]"),
        Some(Json::Array(vec![
            Json::Number(Some(3)),
            text("x"),
            Json::Array(vec![]),
            Json::Object(vec![]),
        ]))
    );
}

#[test]
fn parse_objects_by_key() {
    assert_eq!(
        parse_json("{\"b\": 1, \"a\": {\"z\": null}}"),
        Some(Json::Object(vec![
            ("a".to_string(), Json::Object(vec![("z".to_string(), Json::Null)])),
            ("b".to_string(), Json::Number(Some(1))),
        ]))
    );
}

#[test]
fn parse_keeps_the_last_of_a_repeated_key() {
    assert_eq!(
        parse_json("{\"a\": 1, \"a\": 2}"),
        Some(Json::Object(vec![("a".to_string(), Json::Number(Some(2)))]))
    );
}

#[test]
fn parse_refuses_what_is_no_json() {
    assert_eq!(parse_json(""), None);
    assert_eq!(parse_json("   "), None);
    assert_eq!(parse_json("{"), None);
    assert_eq!(parse_json("{\"a\": }"), None);
    assert_eq!(parse_json("[1, 2,]"), None);
    assert_eq!(parse_json("nul"), None);
    assert_eq!(parse_json("1 2"), None);
    assert_eq!(parse_json("<html></html>"), None);
    assert_eq!(parse_json("{'a': 1}"), None);
}

#[test]
fn field_finds_a_member() {
    let doc = parse_json("{\"a\": 1, \"b\": \"two\"}").unwrap();
    assert_eq!(doc.field("b"), Some(&text("two")));
    assert_eq!(doc.field("a"), Some(&Json::Number(Some(1))));
    assert_eq!(doc.field("c"), None);
    assert_eq!(text("x").field("a"), None);
    assert_eq!(Json::Array(vec![text("a")]).field("a"), None);
}

#[test]
fn field_of_a_hand_made_object_is_the_first_match() {
    let doc = Json::Object(vec![("k".to_string(), text("first")), ("k".to_string(), text("second"))]);
    assert_eq!(doc.field("k"), Some(&text("first")));
}

#[test]
fn accessors_tell_the_kinds_apart() {
    assert_eq!(text("x").as_text(), Some(&"x".to_string()));
    assert_eq!(Json::Null.as_text(), None);
    assert_eq!(Json::Number(Some(5)).as_i32(), Some(5));
    assert_eq!(Json::Number(Some(2147483647)).as_i32(), Some(i32::MAX));
    assert_eq!(Json::Number(Some(-2147483648)).as_i32(), Some(i32::MIN));
    assert_eq!(Json::Number(Some(2147483648)).as_i32(), None);
    assert_eq!(Json::Number(Some(-2147483649)).as_i32(), None);
    assert_eq!(Json::Number(None).as_i32(), None);
    assert_eq!(text("5").as_i32(), None);
    assert_eq!(Json::Array(vec![Json::Null]).as_array(), Some(&vec![Json::Null]));
    assert_eq!(Json::Object(vec![]).as_array(), None);
    assert_eq!(Json::Object(vec![]).as_object(), Some(&vec![]));
    assert_eq!(Json::Array(vec![]).as_object(), None);
    assert!(Json::Null.is_null());
    assert!(!Json::Bool(false).is_null());
}
