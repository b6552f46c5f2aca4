use ddi::json::{parse_json, Json};

fn text(value: &str) -> Json {
    Json::Text(value.to_string())
}

fn member(key: &str, value: Json) -> (String, Json) {
    (key.to_string(), value)
}

#[test]
fn scalars_are_parsed() {
    assert_eq!(parse_json(b"null"), Some(Json::Null));
    assert_eq!(parse_json(b"true"), Some(Json::Bool(true)));
    assert_eq!(parse_json(b"false"), Some(Json::Bool(false)));
    assert_eq!(parse_json(b"12"), Some(Json::Number));
    assert_eq!(parse_json(b"-1.5e3"), Some(Json::Number));
    assert_eq!(parse_json(b"\"sda\""), Some(text("sda")));
    assert_eq!(parse_json(b"\"\""), Some(text("")));
}

#[test]
fn string_escapes_are_resolved() {
    assert_eq!(parse_json(b"\"a\\\"b\\n\\u00e9\""), Some(text("a\"b\n\u{e9}")));
}

#[test]
fn arrays_keep_their_order() {
    assert_eq!(
        parse_json(b"[\"b\", null, \"a\", [], 3]"),
        Some(Json::Array(vec![text("b"), Json::Null, text("a"), Json::Array(vec![]), Json::Number]))
    );
}

#[test]
fn objects_hold_each_key_once() {
    assert_eq!(
        parse_json(b"{\"name\": \"sda\", \"size\": \"1G\"}"),
        Some(Json::Object(vec![member("name", text("sda")), member("size", text("1G"))]))
    );
    assert_eq!(
        parse_json(b"{\"k\": \"first\", \"k\": \"second\"}"),
        Some(Json::Object(vec![member("k", text("second"))]))
    );
    assert_eq!(parse_json(b"{}"), Some(Json::Object(vec![])));
}

#[test]
fn nested_documents_are_parsed() {
    assert_eq!(
        parse_json(b" {\"blockdevices\": [ {\"children\": [ {\"name\": \"sda1\"} ]} ]} \n"),
        Some(Json::Object(vec![member(
            "blockdevices",
            Json::Array(vec![Json::Object(vec![member(
                "children",
                Json::Array(vec![Json::Object(vec![member("name", text("sda1"))])]),
            )])]),
        )]))
    );
}

#[test]
fn broken_documents_are_refused() {
    assert_eq!(parse_json(b""), None);
    assert_eq!(parse_json(b"   "), None);
    assert_eq!(parse_json(b"{"), None);
    assert_eq!(parse_json(b"{\"a\": }"), None);
    assert_eq!(parse_json(b"[1, 2,]"), None);
    assert_eq!(parse_json(b"{} {}"), None);
    assert_eq!(parse_json(b"nul"), None);
    assert_eq!(parse_json(b"lsblk: /tmp/x: not a block device"), None);
    assert_eq!(parse_json(&[b'"', 0xff, b'"']), None);
}
