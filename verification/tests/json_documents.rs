use hme_bridge::json::{find_member, parse_json, Json, Member};

fn json_member(key: &str, value: Json) -> Member {
    Member { key: key.to_string(), value }
}

fn json_text(text: &str) -> Json {
    Json::String(text.to_string())
}

#[test]
fn find_member_returns_first_match() {
    let members = vec![
        json_member("a", Json::Bool(true)),
        json_member("b", Json::Number(Some(2))),
        json_member("a", Json::Null),
    ];
    assert_eq!(find_member(&members, "a"), Some(&Json::Bool(true)));
    assert_eq!(find_member(&members, "b"), Some(&Json::Number(Some(2))));
    assert_eq!(find_member(&members, "c"), None);
}

#[test]
fn find_member_compares_whole_keys() {
    let members = vec![json_member("name", Json::Null), json_member("nam", Json::Bool(false))];
    assert_eq!(find_member(&members, "nam"), Some(&Json::Bool(false)));
    assert_eq!(find_member(&members, "names"), None);
    assert_eq!(find_member(&members, ""), None);
}

#[test]
fn parse_json_reads_scalars() {
    assert_eq!(parse_json("null"), Some(Json::Null));
    assert_eq!(parse_json("true"), Some(Json::Bool(true)));
    assert_eq!(parse_json("false"), Some(Json::Bool(false)));
    assert_eq!(parse_json("\"hi\""), Some(json_text("hi")));
    assert_eq!(parse_json("42"), Some(Json::Number(Some(42))));
    assert_eq!(parse_json("-7"), Some(Json::Number(Some(-7))));
}

#[test]
fn parse_json_keeps_only_integers_that_fit() {
    assert_eq!(parse_json("9223372036854775807"), Some(Json::Number(Some(i64::MAX))));
    assert_eq!(parse_json("-9223372036854775808"), Some(Json::Number(Some(i64::MIN))));
    assert_eq!(parse_json("9223372036854775808"), Some(Json::Number(None)));
    assert_eq!(parse_json("1.5"), Some(Json::Number(None)));
    assert_eq!(parse_json("1e3"), Some(Json::Number(None)));
}

#[test]
fn parse_json_reads_arrays_in_order() {
    assert_eq!(
        parse_json("[1, \"two\", [3], null]"),
        Some(Json::Array(vec![
            Json::Number(Some(1)),
            json_text("two"),
            Json::Array(vec![Json::Number(Some(3))]),
            Json::Null,
        ]))
    );
    assert_eq!(parse_json("[]"), Some(Json::Array(vec![])));
}

#[test]
fn parse_json_reads_nested_objects() {
    let doc = parse_json("{\"outer\": {\"inner\": \"x\"}, \"flag\": true}").unwrap();
    let outer = doc.field("outer").unwrap();
    assert_eq!(outer.field("inner"), Some(&json_text("x")));
    assert_eq!(doc.field("flag"), Some(&Json::Bool(true)));
    assert_eq!(doc.field("missing"), None);
    assert_eq!(parse_json("{}"), Some(Json::Object(vec![])));
}

#[test]
fn parse_json_decodes_escapes() {
    assert_eq!(parse_json("\"a\\\"b\\u0041\\n\""), Some(json_text("a\"bA\n")));
    assert_eq!(parse_json("\"h\u{e9}llo\""), Some(json_text("h\u{e9}llo")));
}

#[test]
fn parse_json_rejects_what_is_not_json() {
    assert_eq!(parse_json(""), None);
    assert_eq!(parse_json("abc123"), None);
    assert_eq!(parse_json("{\"a\": }"), None);
    assert_eq!(parse_json("[1, 2"), None);
    assert_eq!(parse_json("{} trailing"), None);
}

#[test]
fn accessors_tell_the_kinds_apart() {
    let text = json_text("t");
    assert_eq!(text.as_text(), Some(&"t".to_string()));
    assert_eq!(text.as_bool(), None);
    assert_eq!(text.as_integer(), None);
    assert_eq!(text.as_items(), None);
    assert_eq!(text.as_members(), None);
    assert!(!text.is_null());
    assert!(Json::Null.is_null());
    assert_eq!(Json::Bool(true).as_bool(), Some(true));
    assert_eq!(Json::Number(Some(5)).as_integer(), Some(5));
    assert_eq!(Json::Number(None).as_integer(), None);
    assert_eq!(Json::Array(vec![Json::Null]).as_items(), Some(&vec![Json::Null]));
    assert_eq!(Json::Object(vec![]).as_members(), Some(&vec![]));
    assert_eq!(Json::Array(vec![]).field("a"), None);
}

#[test]
fn field_readers_check_the_kind() {
    let doc = parse_json("{\"s\": \"x\", \"b\": false, \"n\": 12, \"z\": null}").unwrap();
    assert_eq!(doc.text_field("s"), Some("x".to_string()));
    assert_eq!(doc.text_field("b"), None);
    assert_eq!(doc.text_field("none"), None);
    assert_eq!(doc.bool_field("b"), Some(false));
    assert_eq!(doc.bool_field("s"), None);
    assert_eq!(doc.integer_field("n"), Some(12));
    assert_eq!(doc.integer_field("s"), None);
    assert_eq!(doc.optional_text_field("s"), Ok(Some("x".to_string())));
    assert_eq!(doc.optional_text_field("z"), Ok(None));
    assert_eq!(doc.optional_text_field("none"), Ok(None));
    assert_eq!(doc.optional_text_field("n"), Err(()));
}

#[test]
fn take_field_moves_the_value_out() {
    let doc = parse_json("{\"a\": [1], \"b\": {\"c\": 2}}").unwrap();
    assert_eq!(doc.take_field("b"), Some(Json::Object(vec![json_member("c", Json::Number(Some(2)))])));
    let doc = parse_json("{\"a\": [1]}").unwrap();
    assert_eq!(doc.take_field("missing"), None);
    assert_eq!(Json::Null.take_field("a"), None);
}
