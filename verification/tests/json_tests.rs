use nmos_control::json::{Json, chars_to_string, parse_json, str_to_chars, to_text};

fn render(v: &Json) -> String {
    chars_to_string(&to_text(v))
}

fn parse(text: &str) -> Option<Json> {
    parse_json(&str_to_chars(text))
}

fn round_trip(text: &str) {
    let v = parse(text).expect("should parse");
    let out = render(&v);
    assert_eq!(out, text);
    let v2 = parse(&out).expect("canonical text should parse");
    assert_eq!(render(&v2), out);
}

#[test]
fn renders_scalars() {
    assert_eq!(render(&Json::Null), "null");
    assert_eq!(render(&Json::Bool(true)), "true");
    assert_eq!(render(&Json::Bool(false)), "false");
    assert_eq!(render(&Json::UInt(0)), "0");
    assert_eq!(render(&Json::UInt(18446744073709551615)), "18446744073709551615");
    assert_eq!(render(&Json::Int(-42)), "-42");
    assert_eq!(render(&Json::Str(String::from("hi"))), "\"hi\"");
}

#[test]
fn renders_structures() {
    let v = Json::Arr(vec![Json::UInt(1), Json::Null, Json::Str(String::from("x"))]);
    assert_eq!(render(&v), "[1,null,\"x\"]");
    let o = Json::Obj(vec![
        (String::from("a"), Json::UInt(7)),
        (String::from("b"), Json::Arr(vec![])),
    ]);
    assert_eq!(render(&o), "{\"a\":7,\"b\":[]}");
}

#[test]
fn escapes_strings() {
    let v = Json::Str(String::from("a\"b\\c\nd"));
    assert_eq!(render(&v), "\"a\\\"b\\\\c\\u000ad\"");
    let back = parse(&render(&v)).unwrap();
    assert_eq!(render(&back), render(&v));
}

#[test]
fn canonical_round_trips() {
    round_trip("null");
    round_trip("[1,2,3]");
    round_trip("{\"k\":\"v\",\"n\":{\"x\":[true,false,null]}}");
    round_trip("-9223372036854775808");
    round_trip("\"\\u0001\"");
}

#[test]
fn accepts_whitespace() {
    let v = parse(" { \"a\" : [ 1 , 2 ] , \"b\" : null } ").unwrap();
    assert_eq!(render(&v), "{\"a\":[1,2],\"b\":null}");
}

#[test]
fn parses_escapes_and_surrogates() {
    let v = parse("\"\\u0041\\t\\/\"").unwrap();
    assert_eq!(
        match &v {
            Json::Str(s) => s.clone(),
            _ => panic!("expected string"),
        },
        "A\t/"
    );
    let pair = parse("\"\\uD834\\uDD1E\"").unwrap();
    assert_eq!(
        match &pair {
            Json::Str(s) => s.clone(),
            _ => panic!("expected string"),
        },
        "\u{1D11E}"
    );
}

#[test]
fn rejects_malformed_documents() {
    assert!(parse("").is_none());
    assert!(parse("{").is_none());
    assert!(parse("[1,]").is_none());
    assert!(parse("1.5").is_none());
    assert!(parse("1e5").is_none());
    assert!(parse("01").is_none());
    assert!(parse("\"\\uDC00\"").is_none());
    assert!(parse("nulll").is_none());
    assert!(parse("{\"a\":1} extra").is_none());
    assert!(parse("18446744073709551616").is_none());
}

#[test]
fn object_lookup_last_binding_wins() {
    let v = parse("{\"a\":1,\"a\":2}").unwrap();
    let got = v.get("a").unwrap();
    assert_eq!(got.as_u64(), Some(2));
    assert!(v.get("b").is_none());
}
