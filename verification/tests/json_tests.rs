use promptwire::json_read::{parse_json, Json};

#[test]
fn parses_scalars() {
    assert_eq!(parse_json("null"), Ok(Json::Null));
    assert_eq!(parse_json("true"), Ok(Json::Bool(true)));
    assert_eq!(parse_json("false"), Ok(Json::Bool(false)));
    assert_eq!(parse_json("\"hi\""), Ok(Json::Str("hi".to_string())));
    assert_eq!(parse_json("-1.5e3"), Ok(Json::Num("-1.5e3".to_string())));
    assert_eq!(parse_json("42"), Ok(Json::Num("42".to_string())));
}

#[test]
fn parses_nested_structure() {
    let got = parse_json("{\"a\": [1, true, null, \"x\"], \"b\": {}}").unwrap();
    let want = Json::Obj(vec![
        (
            "a".to_string(),
            Json::Arr(vec![
                Json::Num("1".to_string()),
                Json::Bool(true),
                Json::Null,
                Json::Str("x".to_string()),
            ]),
        ),
        ("b".to_string(), Json::Obj(vec![])),
    ]);
    assert_eq!(got, want);
}

#[test]
fn parses_empty_array_and_object() {
    assert_eq!(parse_json("[]"), Ok(Json::Arr(vec![])));
    assert_eq!(parse_json("{}"), Ok(Json::Obj(vec![])));
    assert_eq!(parse_json(" [ ] "), Ok(Json::Arr(vec![])));
}

#[test]
fn rejects_trailing_garbage_and_fragments() {
    assert!(parse_json("{} {}").is_err());
    assert!(parse_json("[1,]").is_err());
    assert!(parse_json("{\"a\":}").is_err());
    assert!(parse_json("{\"a\" 1}").is_err());
    assert!(parse_json("\"unterminated").is_err());
    assert!(parse_json("tru").is_err());
    assert!(parse_json("").is_err());
}

#[test]
fn decodes_string_escapes() {
    assert_eq!(
        parse_json("\"a\\\"b\\\\c\\/d\\ne\\tf\\rg\\bh\\fi\""),
        Ok(Json::Str("a\"b\\c/d\ne\tf\rg\u{8}h\u{c}i".to_string()))
    );
    assert_eq!(parse_json("\"\\u0041\\u00e9\""), Ok(Json::Str("Aé".to_string())));
    assert_eq!(parse_json("\"\\uD83D\\uDE00\""), Ok(Json::Str("\u{1F600}".to_string())));
    assert!(parse_json("\"\\uD83D\"").is_err());
    assert!(parse_json("\"\\q\"").is_err());
}

#[test]
fn keeps_raw_unicode_content() {
    assert_eq!(
        parse_json("\"héllo 世界\""),
        Ok(Json::Str("héllo 世界".to_string()))
    );
}
