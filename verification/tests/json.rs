use kick_client::json::text_eq;
use kick_client::{Json, JsonNumber};

fn text(s: &str) -> Json {
    Json::Text(s.to_string())
}

fn number(n: u64) -> Json {
    Json::Number(JsonNumber::PosInt(n))
}

fn object(members: Vec<(&str, Json)>) -> Json {
    Json::Object(members.into_iter().map(|(name, value)| (name.to_string(), value)).collect())
}

#[test]
fn text_eq_compares_character_for_character() {
    assert!(text_eq("", ""));
    assert!(text_eq("pusher:pong", "pusher:pong"));
    assert!(!text_eq("pusher:pong", "pusher:ping"));
    assert!(!text_eq("pusher:pong", "pusher:pon"));
    assert!(!text_eq("a", ""));
    assert!(text_eq("h\u{e9}llo", "h\u{e9}llo"));
    assert!(!text_eq("h\u{e9}llo", "hello"));
    assert!(!text_eq("type", "Type"));
}

#[test]
fn member_finds_by_exact_name() {
    let doc = object(vec![("id", number(1)), ("name", text("a"))]);
    assert_eq!(doc.member("id"), Some(&number(1)));
    assert_eq!(doc.member("name"), Some(&text("a")));
    assert_eq!(doc.member("Name"), None);
    assert_eq!(doc.member("nam"), None);
    assert_eq!(doc.member(""), None);
}

#[test]
fn member_of_a_repeated_name_is_the_last_one() {
    let doc = object(vec![("id", number(1)), ("x", Json::Null), ("id", number(2))]);
    assert_eq!(doc.member("id"), Some(&number(2)));
}

#[test]
fn member_of_what_is_no_object_is_none() {
    assert_eq!(Json::Null.member("id"), None);
    assert_eq!(text("id").member("id"), None);
    assert_eq!(Json::Array(vec![object(vec![("id", number(1))])]).member("id"), None);
}

#[test]
fn scalar_readers_ask_for_the_exact_kind() {
    assert_eq!(text("a").as_text(), Some(&"a".to_string()));
    assert_eq!(number(1).as_text(), None);
    assert_eq!(Json::Null.as_text(), None);
    assert_eq!(Json::Bool(true).as_bool(), Some(true));
    assert_eq!(Json::Bool(false).as_bool(), Some(false));
    assert_eq!(number(1).as_bool(), None);
    assert_eq!(text("true").as_bool(), None);
    assert_eq!(number(7).as_u64(), Some(7));
    assert_eq!(number(u64::MAX).as_u64(), Some(u64::MAX));
    assert_eq!(Json::Number(JsonNumber::NegInt(-1)).as_u64(), None);
    assert_eq!(Json::Number(JsonNumber::Float).as_u64(), None);
    assert_eq!(text("7").as_u64(), None);
}

#[test]
fn as_u32_stops_at_the_32_bit_limit() {
    assert_eq!(number(0).as_u32(), Some(0));
    assert_eq!(number(4294967295).as_u32(), Some(u32::MAX));
    assert_eq!(number(4294967296).as_u32(), None);
    assert_eq!(number(u64::MAX).as_u32(), None);
    assert_eq!(Json::Number(JsonNumber::NegInt(-1)).as_u32(), None);
    assert_eq!(Json::Number(JsonNumber::Float).as_u32(), None);
}

#[test]
fn as_array_and_is_object() {
    assert_eq!(Json::Array(vec![number(1), number(2)]).as_array(), Some(&vec![number(1), number(2)]));
    assert_eq!(Json::Array(vec![]).as_array(), Some(&vec![]));
    assert_eq!(object(vec![]).as_array(), None);
    assert!(object(vec![]).is_object());
    assert!(!Json::Array(vec![]).is_object());
    assert!(!Json::Null.is_object());
}

#[test]
fn lacks_holds_of_missing_and_of_null() {
    let doc = object(vec![("a", Json::Null), ("b", number(0)), ("c", text(""))]);
    assert!(doc.lacks("a"));
    assert!(!doc.lacks("b"));
    assert!(!doc.lacks("c"));
    assert!(doc.lacks("d"));
    assert!(Json::Null.lacks("a"));
}

#[test]
fn required_members_must_be_there_and_of_the_right_kind() {
    let doc = object(vec![
        ("s", text("x")),
        ("n", number(5)),
        ("big", number(5_000_000_000)),
        ("b", Json::Bool(true)),
        ("z", Json::Null),
    ]);
    assert_eq!(doc.text_at("s"), Some("x".to_string()));
    assert_eq!(doc.text_at("n"), None);
    assert_eq!(doc.text_at("z"), None);
    assert_eq!(doc.text_at("missing"), None);
    assert_eq!(doc.u32_at("n"), Some(5));
    assert_eq!(doc.u32_at("big"), None);
    assert_eq!(doc.u32_at("s"), None);
    assert_eq!(doc.u64_at("big"), Some(5_000_000_000));
    assert_eq!(doc.u64_at("z"), None);
    assert_eq!(doc.bool_at("b"), Some(true));
    assert_eq!(doc.bool_at("n"), None);
    assert_eq!(doc.bool_at("missing"), None);
}

#[test]
fn optional_members_may_be_missing_or_null_but_not_of_another_kind() {
    let doc = object(vec![
        ("s", text("x")),
        ("n", number(5)),
        ("big", number(5_000_000_000)),
        ("b", Json::Bool(false)),
        ("z", Json::Null),
    ]);
    assert_eq!(doc.optional_text_at("s"), Some(Some("x".to_string())));
    assert_eq!(doc.optional_text_at("z"), Some(None));
    assert_eq!(doc.optional_text_at("missing"), Some(None));
    assert_eq!(doc.optional_text_at("n"), None);
    assert_eq!(doc.optional_u32_at("n"), Some(Some(5)));
    assert_eq!(doc.optional_u32_at("z"), Some(None));
    assert_eq!(doc.optional_u32_at("big"), None);
    assert_eq!(doc.optional_u32_at("s"), None);
    assert_eq!(doc.optional_u64_at("big"), Some(Some(5_000_000_000)));
    assert_eq!(doc.optional_u64_at("missing"), Some(None));
    assert_eq!(doc.optional_u64_at("b"), None);
    assert_eq!(doc.optional_bool_at("b"), Some(Some(false)));
    assert_eq!(doc.optional_bool_at("z"), Some(None));
    assert_eq!(doc.optional_bool_at("s"), None);
}
