use saasexpress::json::{array, object, parse_json, parse_json_text, print_json, print_json_text, string, Json, JsonNumber};
use saasexpress::message::{temp_push, Message};
use saasexpress::random::generate_random_id;
use saasexpress::text::{decimal_string, decode_utf8, replace_char, starts_with, suffix_from, text_bytes, to_uppercase};
use saasexpress::claim_check::new_claim_id;

type Msg = Message<u32, ()>;

#[test]
fn decimal_string_prints_digits() {
    assert_eq!(decimal_string(0), "0");
    assert_eq!(decimal_string(7), "7");
    assert_eq!(decimal_string(1234567890), "1234567890");
}

#[test]
fn replace_and_prefix() {
    assert_eq!(replace_char("my-graph-x", '-', '_'), "my_graph_x");
    assert!(starts_with("hello", "he"));
    assert!(!starts_with("he", "hello"));
    assert_eq!(suffix_from("hello", 2), "llo");
    assert_eq!(to_uppercase("abc1"), "ABC1");
}

#[test]
fn utf8_wrappers() {
    assert_eq!(text_bytes("Hé".to_string()), vec![72u8, 195, 169]);
    assert_eq!(decode_utf8(vec![104, 105]), Some("hi".to_string()));
    assert_eq!(decode_utf8(vec![0xff]), None);
}

#[test]
fn random_id_is_alphanumeric() {
    let id = generate_random_id(12);
    assert_eq!(id.chars().count(), 12);
    assert!(id.chars().all(|c| c.is_ascii_alphanumeric()));
}

#[test]
fn claim_id_is_uuid_text() {
    let id = new_claim_id();
    assert_eq!(id.len(), 36);
    for (i, c) in id.chars().enumerate() {
        if i == 8 || i == 13 || i == 18 || i == 23 {
            assert_eq!(c, '-');
        } else {
            assert!(c.is_ascii_hexdigit() && !c.is_ascii_uppercase());
        }
    }
}

#[test]
fn json_parse_and_print_round_trip() {
    let v = parse_json(br#"{"b": [1, -2, "x"], "a": true}"#).unwrap();
    assert_eq!(v.get("a").and_then(|x| x.as_bool()), Some(true));
    let b = v.get("b").and_then(|x| x.as_array()).unwrap();
    assert_eq!(b.len(), 3);
    assert_eq!(b[0].as_u64(), Some(1));
    assert!(matches!(b[1], Json::Number(JsonNumber::NegInt(-2))));
    assert_eq!(b[2].as_str().map(|s| s.as_str()), Some("x"));
    assert_eq!(print_json(&v), br#"{"a":true,"b":[1,-2,"x"]}"#.to_vec());
    assert!(parse_json(b"{not json").is_none());
    assert_eq!(print_json_text(&array(vec![string("q"), Json::Null])), "[\"q\",null]");
    assert!(parse_json_text("[1,2]").is_some());
    assert!(parse_json_text("[1,").is_none());
}

#[test]
fn json_insert_then_get() {
    let mut v = object(vec![("k".to_string(), string("old"))]);
    v.insert("k".to_string(), string("new"));
    v.insert("z".to_string(), Json::Bool(false));
    assert_eq!(v.get("k").and_then(|x| x.as_str()).map(|s| s.as_str()), Some("new"));
    assert_eq!(v.get("z").and_then(|x| x.as_bool()), Some(false));
    let mut not_object = string("s");
    not_object.insert("k".to_string(), Json::Null);
    assert!(not_object.get("k").is_none());
}

#[test]
fn temp_push_on_null_and_object() {
    let mut t = Json::Null;
    temp_push(&mut t, "a".to_string(), string("1"));
    assert_eq!(t.get("a").and_then(|x| x.as_str()).map(|s| s.as_str()), Some("1"));
    temp_push(&mut t, "b".to_string(), Json::Bool(true));
    assert_eq!(t.get("a").and_then(|x| x.as_str()).map(|s| s.as_str()), Some("1"));
    assert_eq!(t.get("b").and_then(|x| x.as_bool()), Some(true));
    let mut s = string("x");
    temp_push(&mut s, "a".to_string(), Json::Null);
    assert!(s.get("a").is_none());
}

#[test]
fn origin_take_and_set() {
    let mut m: Msg = Message::Standard { message: vec![1], origin: Some(7) };
    assert_eq!(m.get_origin(), Some(&7));
    assert_eq!(m.take_origin(), Some(7));
    assert_eq!(m.take_origin(), None);
    let m2 = m.with_origin(Some(9));
    assert!(matches!(m2, Message::Standard { origin: Some(9), .. }));
    let mut t: Msg = Message::Tuple {
        message_1: Box::new(Message::JSON { message: Json::Null, origin: Some(3) }),
        message_2: Box::new(Message::NoOp),
        origin: Some(4),
    };
    assert_eq!(t.take_origin(), Some(3));
    let e: Msg = Message::Error { error: "x".to_string(), origin: Some(1) };
    assert!(e.is_error());
}
