use sparka::json::{
    field_double_bits, field_items, field_text, field_unsigned, find_member,
    read_answer_members, read_field, read_members, JsonLayer,
};
use sparka::text::{
    chars_of, extract_json_object, push_decimal, push_signed_decimal, same_text,
};

fn parse_layer(text: &str) -> Option<JsonLayer> {
    read_field(&vec![("k".to_string(), text.to_string())], "k")
}

fn decimal(n: u64) -> String {
    let mut out = String::new();
    push_decimal(&mut out, n);
    out
}

fn signed(n: i64) -> String {
    let mut out = String::from("x=");
    push_signed_decimal(&mut out, n);
    out
}

fn members(pairs: &[(&str, &str)]) -> Vec<(String, String)> {
    pairs.iter().map(|(k, v)| (k.to_string(), v.to_string())).collect()
}

#[test]
fn decimal_rendering() {
    assert_eq!(decimal(0), "0");
    assert_eq!(decimal(7), "7");
    assert_eq!(decimal(10), "10");
    assert_eq!(decimal(1234567890), "1234567890");
    assert_eq!(decimal(u64::MAX), "18446744073709551615");
    for n in [9_u64, 99, 100, 101, 1000, 65535, 4294967296] {
        assert_eq!(decimal(n), n.to_string());
    }
}

#[test]
fn signed_decimal_rendering() {
    assert_eq!(signed(0), "x=0");
    assert_eq!(signed(-1), "x=-1");
    assert_eq!(signed(42), "x=42");
    assert_eq!(signed(i64::MAX), "x=9223372036854775807");
    assert_eq!(signed(i64::MIN), "x=-9223372036854775808");
}

#[test]
fn comparing_text() {
    assert!(same_text("", ""));
    assert!(same_text("daily", "daily"));
    assert!(!same_text("daily", "Daily"));
    assert!(!same_text("daily", "dail"));
    assert!(same_text("\u{1F3AF}", "\u{1F3AF}"));
    assert_eq!(chars_of("a\u{e9}\u{1F3AF}"), vec!['a', '\u{e9}', '\u{1F3AF}']);
    assert!(chars_of("").is_empty());
}

#[test]
fn object_between_first_open_and_last_close() {
    assert_eq!(extract_json_object("{}"), Some("{}".to_string()));
    assert_eq!(extract_json_object("a {\"k\": {\"n\": 1}} b"), Some("{\"k\": {\"n\": 1}}".to_string()));
    assert_eq!(extract_json_object("{a} and {b}"), Some("{a} and {b}".to_string()));
    assert_eq!(extract_json_object("}{}"), Some("{}".to_string()));
    assert_eq!(extract_json_object("{}{"), Some("{}".to_string()));
    assert_eq!(extract_json_object("\u{1F3AF}{\u{e9}}\u{1F3AF}"), Some("{\u{e9}}".to_string()));
}

#[test]
fn no_object_without_braces_in_order() {
    assert_eq!(extract_json_object(""), None);
    assert_eq!(extract_json_object("no braces"), None);
    assert_eq!(extract_json_object("{"), None);
    assert_eq!(extract_json_object("}"), None);
    assert_eq!(extract_json_object("} {"), None);
    assert_eq!(extract_json_object("}}}{{{"), None);
}

#[test]
fn layers_of_scalars() {
    assert!(matches!(parse_layer("null"), Some(JsonLayer::Null)));
    assert!(matches!(parse_layer(" true "), Some(JsonLayer::Bool(true))));
    assert!(matches!(parse_layer("false"), Some(JsonLayer::Bool(false))));
    assert!(matches!(parse_layer("\"a\\nb\""), Some(JsonLayer::Text(ref t)) if t == "a\nb"));
    match parse_layer("42") {
        Some(JsonLayer::Number(n)) => {
            assert_eq!(n.unsigned, Some(42));
            assert_eq!(n.double_bits, Some(42.0_f64.to_bits()));
        }
        other => panic!("unexpected layer {:?}", other),
    }
    match parse_layer("-1.5") {
        Some(JsonLayer::Number(n)) => {
            assert_eq!(n.unsigned, None);
            assert_eq!(n.double_bits, Some((-1.5_f64).to_bits()));
        }
        other => panic!("unexpected layer {:?}", other),
    }
    match parse_layer("-7") {
        Some(JsonLayer::Number(n)) => {
            assert_eq!(n.unsigned, None);
            assert_eq!(n.double_bits, Some((-7.0_f64).to_bits()));
        }
        other => panic!("unexpected layer {:?}", other),
    }
}

#[test]
fn layers_of_arrays_and_objects() {
    match parse_layer("[1, \"two\", [3], {\"four\": 4}, null]") {
        Some(JsonLayer::Array(items)) => {
            assert_eq!(items, vec!["1", "\"two\"", "[3]", "{\"four\":4}", "null"]);
        }
        other => panic!("unexpected layer {:?}", other),
    }
    match parse_layer("{\"b\": [1, 2], \"a\": \"x\"}") {
        Some(JsonLayer::Object(found)) => {
            assert_eq!(found, members(&[("a", "\"x\""), ("b", "[1,2]")]));
        }
        other => panic!("unexpected layer {:?}", other),
    }
    assert!(matches!(parse_layer("[]"), Some(JsonLayer::Array(ref v)) if v.is_empty()));
    assert!(matches!(parse_layer("{}"), Some(JsonLayer::Object(ref v)) if v.is_empty()));
}

#[test]
fn what_is_no_json_has_no_layer() {
    for text in ["", "{", "[1,", "{\"a\": }", "nul", "1 2", "{} {}", "'a'", "{\"a\": 1,}"] {
        assert!(parse_layer(text).is_none(), "text {:?}", text);
    }
}

#[test]
fn members_and_fields() {
    let found = read_members("{\"name\": \"Ann\", \"age\": 30, \"tags\": [\"a\", 2], \"score\": 0.5, \"none\": null}");
    assert_eq!(field_text(&found, "name"), Some("Ann".to_string()));
    assert_eq!(field_text(&found, "age"), None);
    assert_eq!(field_text(&found, "missing"), None);
    assert_eq!(field_unsigned(&found, "age"), Some(30));
    assert_eq!(field_unsigned(&found, "score"), None);
    assert_eq!(field_unsigned(&found, "name"), None);
    assert_eq!(field_double_bits(&found, "score"), Some(0.5_f64.to_bits()));
    assert_eq!(field_double_bits(&found, "age"), Some(30.0_f64.to_bits()));
    assert_eq!(field_double_bits(&found, "none"), None);
    assert_eq!(field_items(&found, "tags"), Some(vec!["\"a\"".to_string(), "2".to_string()]));
    assert_eq!(field_items(&found, "name"), None);
    assert!(matches!(read_field(&found, "none"), Some(JsonLayer::Null)));
    assert!(read_field(&found, "nothing").is_none());
    assert!(read_members("[1]").is_empty());
    assert!(read_members("not json").is_empty());
}

#[test]
fn first_member_with_the_key_is_found() {
    let found = members(&[("k", "1"), ("other", "2"), ("k", "3")]);
    assert_eq!(find_member(&found, "k"), Some(&"1".to_string()));
    assert_eq!(find_member(&found, "other"), Some(&"2".to_string()));
    assert_eq!(find_member(&found, "K"), None);
    assert_eq!(field_unsigned(&found, "k"), Some(1));
    let broken = members(&[("k", "{oops")]);
    assert_eq!(field_text(&broken, "k"), None);
    assert!(read_field(&broken, "k").is_none());
}

#[test]
fn members_of_an_answer_in_prose() {
    let found = read_answer_members("The object is {\"a\": 1} as asked.");
    assert_eq!(field_unsigned(&found, "a"), Some(1));
    assert!(read_answer_members("The object is missing.").is_empty());
    assert!(read_answer_members("{\"a\": 1} and {\"b\": 2}").is_empty());
}
