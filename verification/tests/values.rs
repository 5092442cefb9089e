use zeptoclaw::json::{from_value, to_value, Json, JsonNumber};
use zeptoclaw::text::{
    byte_len, chars_of, decimal_text, is_ascii_alphanumeric, is_white_space, join, same_text,
    skip_chars, starts_with, string_of, trim,
};
use zeptoclaw::text_map::TextMap;

#[test]
fn white_space_is_that_of_the_standard_library() {
    for n in 0..=0x10ffff {
        if let Some(c) = char::from_u32(n) {
            assert_eq!(is_white_space(c), c.is_whitespace());
            assert_eq!(is_ascii_alphanumeric(c), c.is_ascii_alphanumeric());
        }
    }
}

#[test]
fn trimming() {
    for s in ["", "  ", "a", " a b \n", "\u{3000}ü\u{85}", "\u{200b}x"] {
        assert_eq!(trim(s), s.trim());
    }
}

#[test]
fn pieces_of_text() {
    assert_eq!(skip_chars("äöü", 1), "öü");
    assert!(starts_with("äöü", "äö"));
    assert!(!starts_with("äöü", "ö"));
    assert!(starts_with("", ""));
    assert!(same_text("é", "é"));
    assert!(!same_text("é", "e\u{301}"));
    assert_eq!(byte_len("aé€😀"), 10);
    assert_eq!(string_of(&chars_of("aé€😀")), "aé€😀");
}

#[test]
fn numbers_in_decimal() {
    for n in [0, 7, 10, 99, 100, 4096, u64::MAX] {
        assert_eq!(decimal_text(n), n.to_string());
    }
}

#[test]
fn joining() {
    let list: Vec<String> = ["a", "", "c"].iter().map(|s| s.to_string()).collect();
    assert_eq!(join(&list, ", "), "a, , c");
    assert_eq!(join(&Vec::new(), ", "), "");
}

#[test]
fn maps_keep_the_order_of_their_keys() {
    let mut map: TextMap<u32> = TextMap::new();
    map.insert("b".to_string(), 1);
    map.insert("a".to_string(), 2);
    map.insert("b".to_string(), 3);
    assert_eq!(map.len(), 2);
    assert_eq!((map.key_at(0), *map.value_at(0)), ("b", 3));
    assert_eq!((map.key_at(1), *map.value_at(1)), ("a", 2));
    assert_eq!(map.get("a"), Some(&2));
    assert_eq!(map.get("c"), None);
}

#[test]
fn json_text_there_and_back() {
    for text in [
        "null",
        "true",
        "false",
        "0",
        "-5",
        "18446744073709551615",
        "-9223372036854775808",
        "0.5",
        "1e+300",
        r#""a\"\nü""#,
        r#"[1,[],{}]"#,
        r#"{"a":{"b":[null,true]},"c":"d"}"#,
    ] {
        let value = Json::parse(text).unwrap();
        assert_eq!(value.compact(), text);
        assert_eq!(value.copy().compact(), text);
        assert_eq!(from_value(to_value(&value)).compact(), text);
    }
}

#[test]
fn json_text_that_cannot_be_read() {
    for text in ["", "{", "nul", "[1,]", "1 2", "'a'"] {
        assert!(Json::parse(text).is_none());
    }
}

#[test]
fn integers_of_any_sign() {
    assert_eq!(Json::parse("7").unwrap().as_u64(), Some(7));
    assert_eq!(Json::parse("-7").unwrap().as_u64(), None);
    assert_eq!(Json::parse("7.0").unwrap().as_u64(), None);
    assert_eq!(Json::Number(JsonNumber::Signed(7)).as_u64(), Some(7));
    assert_eq!(Json::natural(7).compact(), "7");
}

#[test]
fn numbers_that_are_not_finite_are_null() {
    for text in ["inf", "NaN", "no number"] {
        let value = Json::Number(JsonNumber::Real(text.to_string()));
        assert_eq!(value.compact(), "null");
    }
}

#[test]
fn later_member_counts() {
    let value = Json::Object(vec![
        ("k".to_string(), Json::Bool(true)),
        ("k".to_string(), Json::Bool(false)),
    ]);
    assert_eq!(value.get("k").unwrap().as_bool(), Some(false));
    assert_eq!(value.compact(), r#"{"k":false}"#);
    let value = Json::parse(r#"{"k": 1, "k": 2}"#).unwrap();
    assert_eq!(value.get("k").unwrap().as_u64(), Some(2));
}

#[test]
fn looking_into_other_values() {
    let value = Json::parse("[1, 2]").unwrap();
    assert!(value.get("0").is_none());
    assert_eq!(value.at(1).unwrap().as_u64(), Some(2));
    assert!(value.at(2).is_none());
    assert!(Json::text("abc").at(0).is_none());
    assert!(Json::Null.get("a").is_none());
    assert!(value.as_object().is_none());
    assert_eq!(value.as_array().unwrap().len(), 2);
}
