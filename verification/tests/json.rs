use vortex::json::{find, Json};

fn text(s: &str) -> Json {
    Json::Text(s.to_string())
}

#[test]
fn parse_reads_every_kind_of_value() {
    let json = Json::parse(r#"{"a":null,"b":true,"c":7,"d":"x","e":[1,"y"],"f":{"g":false}}"#).unwrap();
    let expected = Json::Object(vec![
        ("a".to_string(), Json::Null),
        ("b".to_string(), Json::Bool(true)),
        ("c".to_string(), Json::Unsigned(7)),
        ("d".to_string(), text("x")),
        ("e".to_string(), Json::Array(vec![Json::Unsigned(1), text("y")])),
        ("f".to_string(), Json::Object(vec![("g".to_string(), Json::Bool(false))])),
    ]);
    assert_eq!(json, expected);
}

#[test]
fn parse_keeps_the_order_of_members() {
    let json = Json::parse(r#"{"z":1,"a":2,"m":3}"#).unwrap();
    match json {
        Json::Object(members) => {
            let names: Vec<&str> = members.iter().map(|(name, _)| name.as_str()).collect();
            assert_eq!(names, vec!["z", "a", "m"]);
        }
        other => panic!("not an object: {:?}", other),
    }
}

#[test]
fn parse_tells_whole_numbers_from_others() {
    assert_eq!(Json::parse("18446744073709551615"), Some(Json::Unsigned(u64::MAX)));
    assert_eq!(Json::parse("0"), Some(Json::Unsigned(0)));
    assert_eq!(
        Json::parse("-1"),
        Some(Json::Number(serde_json::Number::from(-1i64)))
    );
    match Json::parse("1.5") {
        Some(Json::Number(n)) => assert_eq!(n.as_u64(), None),
        other => panic!("not a number: {:?}", other),
    }
    match Json::parse("1e2") {
        Some(Json::Number(n)) => assert_eq!(n.as_u64(), None),
        other => panic!("not a number: {:?}", other),
    }
}

#[test]
fn parse_rejects_what_is_not_json() {
    assert_eq!(Json::parse(""), None);
    assert_eq!(Json::parse("{"), None);
    assert_eq!(Json::parse("{\"a\":1} trailing"), None);
    assert_eq!(Json::parse("{'a':1}"), None);
    assert_eq!(Json::parse("nul"), None);
}

#[test]
fn parse_unescapes_texts() {
    assert_eq!(Json::parse(r#""a\"b\\cA\n""#), Some(text("a\"b\\cA\n")));
}

#[test]
fn print_writes_compact_text_in_member_order() {
    let json = Json::Object(vec![
        ("z".to_string(), Json::Null),
        ("a".to_string(), Json::Array(vec![Json::Bool(false), Json::Unsigned(12), text("q")])),
        ("m".to_string(), Json::Object(vec![])),
    ]);
    assert_eq!(json.print(), r#"{"z":null,"a":[false,12,"q"],"m":{}}"#);
}

#[test]
fn print_escapes_texts() {
    assert_eq!(text("a\"b\\c\n").print(), r#""a\"b\\c\n""#);
}

#[test]
fn print_writes_numbers_as_they_were_read() {
    assert_eq!(Json::Unsigned(u64::MAX).print(), "18446744073709551615");
    assert_eq!(Json::Number(serde_json::Number::from(-3i64)).print(), "-3");
    assert_eq!(Json::parse("2.5").unwrap().print(), "2.5");
}

#[test]
fn print_then_parse_gives_the_document_back() {
    let json = Json::Object(vec![
        ("src".to_string(), text("n1")),
        ("list".to_string(), Json::Array(vec![Json::Unsigned(0), Json::Null, text("")])),
        ("deep".to_string(), Json::Object(vec![("k".to_string(), Json::Bool(true))])),
    ]);
    let line = json.print();
    assert_eq!(Json::parse(&line), Some(json));
}

#[test]
fn find_gives_the_first_member_of_a_name() {
    let members = vec![
        ("a".to_string(), Json::Unsigned(1)),
        ("b".to_string(), Json::Unsigned(2)),
        ("a".to_string(), Json::Unsigned(3)),
    ];
    assert_eq!(find(&members, "a"), Some(&Json::Unsigned(1)));
    assert_eq!(find(&members, "b"), Some(&Json::Unsigned(2)));
    assert_eq!(find(&members, "c"), None);
    assert_eq!(find(&Vec::new(), "a"), None);
}
