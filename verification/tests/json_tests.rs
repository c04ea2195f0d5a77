use spotify_dj::json::{JsonNumber, JsonValue};

fn sample() -> JsonValue {
    JsonValue::Object(vec![
        ("name".to_string(), JsonValue::Text("x".to_string())),
        ("n".to_string(), JsonValue::Number(JsonNumber::PosInt(3))),
        ("neg".to_string(), JsonValue::Number(JsonNumber::NegInt(-3))),
        ("flag".to_string(), JsonValue::Bool(true)),
        (
            "list".to_string(),
            JsonValue::List(vec![JsonValue::Null, JsonValue::Text("second".to_string())]),
        ),
    ])
}

#[test]
fn member_lookup() {
    let v = sample();
    assert_eq!(v.get("name").as_str(), Some("x"));
    assert_eq!(v.get("n").as_u64(), Some(3));
    assert_eq!(v.get("neg").as_u64(), None);
    assert_eq!(v.get("flag").as_bool(), Some(true));
    assert!(v.get("missing").is_null());
    assert!(v.get("name").get("deeper").is_null());
    assert!(v.is_object());
}

#[test]
fn element_lookup() {
    let v = sample();
    let list = v.get("list");
    assert!(list.at(0).is_null());
    assert_eq!(list.at(1).as_str(), Some("second"));
    assert!(list.at(2).is_null());
    assert!(v.at(0).is_null());
    assert_eq!(list.as_array().map(|a| a.len()), Some(2));
}

#[test]
fn defaults() {
    let v = sample();
    assert_eq!(v.get("missing").text_or("d"), "d");
    assert_eq!(v.get("name").text_or("d"), "x");
    assert_eq!(v.get("n").unsigned_or(7), 3);
    assert_eq!(v.get("name").unsigned_or(7), 7);
    assert!(!v.get("missing").flag_or(false));
    assert!(v.get("flag").flag_or(false));
    assert_eq!(JsonValue::Number(JsonNumber::Float).as_u64(), None);
}
