use stripe_requests::error::JsonKind;
use stripe_requests::json::{nesting_of, parse, Json, JsonNumber, MAX_DEPTH};

#[test]
fn parse_reads_scalars() {
    assert_eq!(parse("null"), Some(Json::Null));
    assert_eq!(parse(" true "), Some(Json::Bool(true)));
    assert_eq!(parse("false"), Some(Json::Bool(false)));
    assert_eq!(parse("0"), Some(Json::Number(JsonNumber::U64(0))));
    assert_eq!(parse("18446744073709551615"), Some(Json::Number(JsonNumber::U64(u64::MAX))));
    assert_eq!(parse("-12"), Some(Json::Number(JsonNumber::I64(-12))));
    assert_eq!(parse(r#""a\nb""#), Some(Json::String("a\nb".to_string())));
}

#[test]
fn parse_keeps_the_bits_of_a_float() {
    assert_eq!(parse("1.5"), Some(Json::Number(JsonNumber::Float(1.5f64.to_bits()))));
    assert_eq!(parse("-2e3"), Some(Json::Number(JsonNumber::Float((-2000.0f64).to_bits()))));
}

#[test]
fn parse_reads_arrays_and_objects() {
    assert_eq!(
        parse(r#"[1, "two", [], {}]"#),
        Some(Json::Array(vec![
            Json::Number(JsonNumber::U64(1)),
            Json::String("two".to_string()),
            Json::Array(vec![]),
            Json::Object(vec![]),
        ]))
    );
    assert_eq!(
        parse(r#"{"b": {"c": null}, "a": [true]}"#),
        Some(Json::Object(vec![
            ("a".to_string(), Json::Array(vec![Json::Bool(true)])),
            ("b".to_string(), Json::Object(vec![("c".to_string(), Json::Null)])),
        ]))
    );
}

#[test]
fn parse_keeps_the_last_of_two_members_of_one_name() {
    assert_eq!(
        parse(r#"{"a": 1, "a": 2}"#),
        Some(Json::Object(vec![("a".to_string(), Json::Number(JsonNumber::U64(2)))]))
    );
}

#[test]
fn parse_refuses_what_is_no_json() {
    assert_eq!(parse(""), None);
    assert_eq!(parse("{"), None);
    assert_eq!(parse(r#"{"a": }"#), None);
    assert_eq!(parse("[1, 2,]"), None);
    assert_eq!(parse("nul"), None);
    assert_eq!(parse("1 2"), None);
    assert_eq!(parse(r#"{"a": 1} x"#), None);
}

#[test]
fn parse_reads_nesting_up_to_the_limit() {
    let text = "[".repeat(MAX_DEPTH) + &"]".repeat(MAX_DEPTH);
    assert_eq!(nesting_of(&text), MAX_DEPTH);
    let mut v = parse(&text).unwrap();
    let mut seen = 0;
    loop {
        match v {
            Json::Array(mut items) => {
                seen += 1;
                match items.pop() {
                    Some(inner) => v = inner,
                    None => break,
                }
            }
            other => panic!("{:?}", other.kind()),
        }
    }
    assert_eq!(seen, MAX_DEPTH);
}

#[test]
fn parse_refuses_nesting_beyond_the_limit() {
    let text = "[".repeat(MAX_DEPTH + 1) + &"]".repeat(MAX_DEPTH + 1);
    assert_eq!(nesting_of(&text), MAX_DEPTH + 1);
    assert_eq!(parse(&text), None);
    let text = r#"{"a":"#.repeat(MAX_DEPTH + 1) + "1" + &"}".repeat(MAX_DEPTH + 1);
    assert_eq!(parse(&text), None);
    let text = "[".repeat(1_000_000);
    assert_eq!(nesting_of(&text), 1_000_000);
    assert_eq!(parse(&text), None);
}

#[test]
fn nesting_counts_brackets_outside_of_strings() {
    assert_eq!(nesting_of(""), 0);
    assert_eq!(nesting_of("12"), 0);
    assert_eq!(nesting_of("[]"), 1);
    assert_eq!(nesting_of("[[], {}]"), 2);
    assert_eq!(nesting_of(r#"{"a": [{"b": []}], "c": {}}"#), 4);
    assert_eq!(nesting_of(r#""[[[[""#), 0);
    assert_eq!(nesting_of(r#"["[[[", "\"[[", "\\", [1]]"#), 2);
    assert_eq!(nesting_of("]]][["), 2);
    assert_eq!(nesting_of("[\u{e9}[\"\u{1f600}[\"]]"), 2);
    let wide = "[".to_string() + &"[],".repeat(500) + "[]]";
    assert_eq!(nesting_of(&wide), 2);
    assert!(parse(&wide).is_some());
    let quoted = format!(r#"["{}"]"#, "[".repeat(1000));
    assert_eq!(nesting_of(&quoted), 1);
    assert_eq!(parse(&quoted), Some(Json::Array(vec![Json::String("[".repeat(1000))])));
}

#[test]
fn kinds() {
    assert_eq!(Json::Null.kind(), JsonKind::Null);
    assert_eq!(Json::Bool(true).kind(), JsonKind::Bool);
    assert_eq!(Json::Number(JsonNumber::U64(1)).kind(), JsonKind::Integer);
    assert_eq!(Json::Number(JsonNumber::I64(-1)).kind(), JsonKind::Integer);
    assert_eq!(Json::Number(JsonNumber::Float(0)).kind(), JsonKind::Float);
    assert_eq!(Json::String(String::new()).kind(), JsonKind::String);
    assert_eq!(Json::Array(vec![]).kind(), JsonKind::Array);
    assert_eq!(Json::Object(vec![]).kind(), JsonKind::Object);
}
