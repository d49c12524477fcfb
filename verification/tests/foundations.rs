use rub_daemon::json::{
    float_value, lookup_json_path, opt_bool_value, opt_text_value, text_value, texts_value,
    uint_value, words_value, Json, JsonNumber, JsonObject,
};
use rub_daemon::text::{
    cat2, cat3, cat5, chars_of, contains, decimal_string, eq_ignore_ascii_case, int_error_str,
    is_whitespace, join, parse_int, sort_texts, split_char, split_whitespace, starts_with,
    string_of, text_le, trim, IntError,
};
use serde_json::Value;

/// A JSON value as the library holds it.
fn own(value: &Value) -> Json {
    match value {
        Value::Null => Json::Null,
        Value::Bool(b) => Json::Bool(*b),
        Value::Number(n) => match (n.as_u64(), n.as_i64()) {
            (Some(u), _) => Json::Number(JsonNumber::PosInt(u)),
            (None, Some(i)) => Json::Number(JsonNumber::NegInt(i)),
            (None, None) => Json::Number(JsonNumber::Float(n.to_string())),
        },
        Value::String(s) => Json::Text(s.clone()),
        Value::Array(items) => Json::Array(items.iter().map(own).collect()),
        Value::Object(members) => {
            let mut object = JsonObject::new();
            for (key, member) in members {
                object.insert(key, own(member));
            }
            Json::Object(object)
        }
    }
}

/// A JSON value as serde_json holds it.
fn plain(value: &Json) -> Value {
    match value {
        Json::Null => Value::Null,
        Json::Bool(b) => Value::Bool(*b),
        Json::Number(JsonNumber::PosInt(u)) => Value::from(*u),
        Json::Number(JsonNumber::NegInt(i)) => Value::from(*i),
        Json::Number(JsonNumber::Float(s)) => serde_json::from_str(s).unwrap(),
        Json::Text(s) => Value::from(s.as_str()),
        Json::Array(items) => Value::Array(items.iter().map(plain).collect()),
        Json::Object(object) => Value::Object(
            object
                .entries
                .iter()
                .map(|(key, member)| (key.clone(), plain(member)))
                .collect(),
        ),
    }
}

fn json(text: &str) -> Json {
    own(&value(text))
}

fn value(text: &str) -> Value {
    serde_json::from_str(text).unwrap()
}

const TEXTS: [&str; 12] = [
    "",
    " ",
    "a",
    "  a  b ",
    "\u{3000}x\u{a0}",
    "Straße",
    "\t\r\n",
    "a\u{200b}b",
    "A",
    "ab",
    "aé",
    "日本",
];

#[test]
fn blanks_are_those_of_the_standard_library() {
    for code in 0..=0x10ffffu32 {
        if let Some(c) = char::from_u32(code) {
            assert_eq!(is_whitespace(c), c.is_whitespace(), "{code:x}");
        }
    }
}

#[test]
fn texts_are_cut_like_the_standard_library_cuts_them() {
    for s in TEXTS {
        assert_eq!(trim(s), s.trim());
        let words: Vec<&str> = s.split_whitespace().collect();
        assert_eq!(split_whitespace(s), words);
        let parts: Vec<&str> = s.split('a').collect();
        assert_eq!(split_char(s, 'a'), parts);
        let chars: Vec<char> = s.chars().collect();
        assert_eq!(chars_of(s), chars);
        assert_eq!(string_of(&chars, 0, chars.len()), s);
        for t in TEXTS {
            assert_eq!(contains(s, t), s.contains(t), "{s:?} {t:?}");
            assert_eq!(starts_with(s, t), s.starts_with(t), "{s:?} {t:?}");
            assert_eq!(text_le(s, t), s <= t, "{s:?} {t:?}");
            assert_eq!(eq_ignore_ascii_case(s, t), s.eq_ignore_ascii_case(t));
        }
    }
}

#[test]
fn texts_are_put_together() {
    assert_eq!(cat2("a", "b"), "ab");
    assert_eq!(cat3("a", "b", "c"), "abc");
    assert_eq!(cat5("a", "b", "c", "d", "e"), "abcde");
    assert_eq!(join(&vec!["a".to_string(), "b".to_string()], ", "), "a, b");
    assert_eq!(join(&Vec::new(), ", "), "");
}

#[test]
fn sorting_is_that_of_the_standard_library() {
    let given: Vec<String> = TEXTS.iter().rev().map(|s| s.to_string()).collect();
    let mut expected = given.clone();
    expected.sort();
    assert_eq!(sort_texts(&given), expected);
}

#[test]
fn numbers_are_written_and_read() {
    for n in [0u64, 7, 10, 99, 1_000_000, u64::MAX] {
        assert_eq!(decimal_string(n), n.to_string());
    }
    for s in [
        "0", "-0", "+7", "42", "-42", "", "+", "-", "4 2", "9223372036854775807",
        "9223372036854775808", "-9223372036854775808", "-9223372036854775809", "x", "1x",
        "99999999999999999999x",
    ] {
        match (parse_int(s), s.parse::<i64>()) {
            (Ok(ours), Ok(theirs)) => assert_eq!(ours, theirs),
            (Err(ours), Err(theirs)) => assert_eq!(int_error_str(ours), theirs.to_string(), "{s}"),
            (ours, theirs) => panic!("{s}: {ours:?} {theirs:?}"),
        }
    }
    assert_eq!(parse_int(""), Err(IntError::Empty));
}

#[test]
fn objects_hold_their_last_members() {
    let mut object = JsonObject::new().with("a", uint_value(1)).with("a", uint_value(2));
    assert_eq!(plain(object.get("a").unwrap()), 2);
    object.insert("b", text_value("x"));
    assert_eq!(object.sorted_keys(), vec!["a", "b"]);
    let mut other = JsonObject::new().with("b", Json::Null);
    other.extend(&object);
    assert_eq!(plain(&Json::Object(other)), value(r#"{"a": 2, "b": "x"}"#));
    assert_eq!(plain(&Json::Object(object.without("a"))), value(r#"{"b": "x"}"#));
    assert!(JsonObject::new().is_empty());
}

#[test]
fn values_are_looked_up_by_path() {
    let nested = json(r#"{"a": {"b": [{"c": 1}]}}"#);
    assert!(lookup_json_path(&nested, "a.b").is_some());
    assert!(lookup_json_path(&nested, "a.x").is_none());
    assert_eq!(nested.get("a").and_then(|a| a.get("b")).map(plain), Some(value(r#"[{"c": 1}]"#)));
    assert_eq!(json("true").as_bool(), Some(true));
    assert_eq!(json("7").as_u64(), Some(7));
    assert_eq!(json("-7").as_u64(), None);
}

#[test]
fn values_are_built() {
    assert_eq!(plain(&float_value("2.5")), 2.5);
    assert!(plain(&opt_text_value(&None)).is_null());
    assert_eq!(plain(&opt_bool_value(Some(false))), false);
    assert_eq!(plain(&texts_value(&vec!["a".to_string()])), value(r#"["a"]"#));
    assert_eq!(plain(&words_value(&vec!["a", "b"])), value(r#"["a", "b"]"#));
}
