//! The JSON shape model: object field lookup as the stages rely on it.

use wikis::json::Json;

fn text(s: &str) -> Json {
    Json::Text(s.to_string())
}

#[test]
fn field_lookup_finds_entries_by_key() {
    let j = Json::Object(vec![
        ("a".to_string(), text("one")),
        ("b".to_string(), Json::Null),
    ]);
    assert!(matches!(j.get_field("a"), Some(Json::Text(s)) if s == "one"));
    assert!(matches!(j.get_field("b"), Some(Json::Null)));
    assert!(j.get_field("c").is_none());
}

#[test]
fn field_lookup_takes_the_first_of_equal_keys() {
    let j = Json::Object(vec![
        ("k".to_string(), text("first")),
        ("k".to_string(), text("second")),
    ]);
    assert!(matches!(j.get_field("k"), Some(Json::Text(s)) if s == "first"));
}

#[test]
fn text_lookup_wants_a_text_entry() {
    let j = Json::Object(vec![("n".to_string(), Json::Number)]);
    assert!(j.get_text_field("n").is_none());
    assert!(Json::Null.get_text_field("n").is_none());
    let j = Json::Object(vec![("t".to_string(), text("x"))]);
    assert_eq!(j.get_text_field("t").map(String::as_str), Some("x"));
}
