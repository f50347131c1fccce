use ocpp_server::json::{json_to_string, parse_json, Json};

#[test]
fn prints_scalars() {
    assert_eq!(json_to_string(&Json::Null), "null");
    assert_eq!(json_to_string(&Json::Bool(true)), "true");
    assert_eq!(json_to_string(&Json::Bool(false)), "false");
    assert_eq!(json_to_string(&Json::Int(0)), "0");
    assert_eq!(json_to_string(&Json::Int(-42)), "-42");
    assert_eq!(json_to_string(&Json::Int(1500100900)), "1500100900");
    assert_eq!(json_to_string(&Json::Int(i64::MIN)), "-9223372036854775808");
}

#[test]
fn prints_strings_with_escapes() {
    let j = Json::Str(String::from("a\"b\\c\nd"));
    assert_eq!(json_to_string(&j), "\"a\\\"b\\\\c\\nd\"");
}

#[test]
fn prints_nested_structures() {
    let j = Json::Obj(vec![
        (String::from("idTagInfo"), Json::Obj(vec![(
            String::from("status"),
            Json::Str(String::from("Blocked")),
        )])),
        (String::from("n"), Json::Arr(vec![Json::Int(1), Json::Int(2)])),
    ]);
    assert_eq!(
        json_to_string(&j),
        "{\"idTagInfo\":{\"status\":\"Blocked\"},\"n\":[1,2]}"
    );
}

#[test]
fn parse_and_reprint_round_trip() {
    let text = "{\"a\":1,\"b\":[true,null,\"x\"],\"c\":{\"d\":-5}}";
    let j = parse_json(text).expect("parses");
    assert_eq!(json_to_string(&j), text);
}

#[test]
fn parse_tolerates_whitespace() {
    let j = parse_json(" { \"a\" : [ 1 , 2 ] } ").expect("parses");
    assert_eq!(json_to_string(&j), "{\"a\":[1,2]}");
}

#[test]
fn parse_decimal_stays_raw() {
    let j = parse_json("{\"x\":1.5e3}").expect("parses");
    assert_eq!(json_to_string(&j), "{\"x\":1.5e3}");
}

#[test]
fn parse_rejects_garbage() {
    assert!(parse_json("").is_none());
    assert!(parse_json("{").is_none());
    assert!(parse_json("[1,]").is_none());
    assert!(parse_json("{\"a\":}").is_none());
    assert!(parse_json("trailing {}").is_none());
}

#[test]
fn field_lookup() {
    let j = parse_json("{\"a\":1,\"b\":\"two\"}").expect("parses");
    assert!(matches!(j.get("a"), Some(Json::Int(1))));
    match j.get("b") {
        Some(Json::Str(s)) => assert_eq!(s, "two"),
        _ => panic!("expected a string"),
    }
    assert!(j.get("missing").is_none());
}

#[test]
fn emitted_json_is_valid_for_serde() {
    let j = Json::Obj(vec![
        (String::from("k\"ey"), Json::Str(String::from("v\\al"))),
        (String::from("n"), Json::Int(7)),
    ]);
    let text = json_to_string(&j);
    let v: serde_json::Value = serde_json::from_str(&text).expect("serde accepts the output");
    assert_eq!(v["k\"ey"], serde_json::Value::String(String::from("v\\al")));
    assert_eq!(v["n"], serde_json::Value::from(7));
}


#[test]
fn control_characters_are_escaped_on_print() {
    let j = parse_json("{\"x\":\"a\\u0008b\\u000cc\\u0001d\"}").expect("parses");
    let text = json_to_string(&j);
    assert_eq!(text, "{\"x\":\"a\\u0008b\\u000cc\\u0001d\"}");
    // What this library prints, serde reads back to the same value.
    let v: serde_json::Value = serde_json::from_str(&text).expect("serde accepts the output");
    assert_eq!(v["x"], serde_json::Value::String(String::from("a\u{8}b\u{c}c\u{1}d")));
}

#[test]
fn unicode_escape_round_trip() {
    let j = parse_json("{\"s\":\"caf\\u00e9 \\ud83d\\ude00\"}").expect("parses");
    assert_eq!(json_to_string(&j), "{\"s\":\"caf\u{e9} \u{1F600}\"}");
}
