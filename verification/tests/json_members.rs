use serde_json::Value;
use user_service::json::{coerce, text_member};

fn body(text: &str) -> Value {
    serde_json::from_str(text).unwrap()
}

#[test]
fn string_member_is_read() {
    let form = body(r#"{"last_name": "Z", "age": 5}"#);
    assert_eq!(text_member(&form, "last_name"), Some("Z".to_string()));
}

#[test]
fn empty_string_member_is_a_text() {
    let form = body(r#"{"email": ""}"#);
    assert_eq!(text_member(&form, "email"), Some(String::new()));
}

#[test]
fn absent_member_gives_nothing() {
    let form = body(r#"{"last_name": "Z"}"#);
    assert_eq!(text_member(&form, "first_name"), None);
}

#[test]
fn number_member_is_no_text() {
    let form = body(r#"{"last_name": 5}"#);
    assert_eq!(text_member(&form, "last_name"), None);
}

#[test]
fn null_bool_array_and_object_members_are_no_text() {
    let form = body(r#"{"a": null, "b": true, "c": ["x"], "d": {"e": "x"}}"#);
    assert_eq!(text_member(&form, "a"), None);
    assert_eq!(text_member(&form, "b"), None);
    assert_eq!(text_member(&form, "c"), None);
    assert_eq!(text_member(&form, "d"), None);
}

#[test]
fn member_that_does_not_convert_is_no_text() {
    // 18446744073709551615 does not fit the signed 64 bits of a BSON integer
    let form = body(r#"{"email": 18446744073709551615}"#);
    assert_eq!(text_member(&form, "email"), None);
}

#[test]
fn extended_json_symbol_is_no_text() {
    let form = body(r#"{"email": {"$symbol": "x"}}"#);
    assert_eq!(text_member(&form, "email"), None);
}

#[test]
fn body_that_is_no_object_has_no_members() {
    assert_eq!(text_member(&body(r#"["first_name"]"#), "first_name"), None);
    assert_eq!(text_member(&body(r#""first_name""#), "first_name"), None);
    assert_eq!(text_member(&body("null"), "first_name"), None);
}

#[test]
fn key_is_matched_exactly() {
    let form = body(r#"{"First_Name": "A", "first_name ": "B"}"#);
    assert_eq!(text_member(&form, "first_name"), None);
}

#[test]
fn coerce_takes_the_text_of_a_bson_string() {
    let converted = mongodb::bson::to_bson("hello");
    assert_eq!(coerce(converted), Some("hello".to_string()));
}

#[test]
fn coerce_drops_other_bson_values_and_errors() {
    assert_eq!(coerce(mongodb::bson::to_bson(&7)), None);
    assert_eq!(coerce(mongodb::bson::to_bson(&u64::MAX)), None);
}
