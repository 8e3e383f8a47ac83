use minion_report::json::{decode, Json, JsonNumber};

#[test]
fn decodes_scalars() {
    assert_eq!(decode("null"), Some(Json::Null));
    assert_eq!(decode("true"), Some(Json::Bool(true)));
    assert_eq!(decode("\"a b\""), Some(Json::String("a b".to_string())));
    assert_eq!(
        decode("17"),
        Some(Json::Number(JsonNumber { literal: "17".to_string(), unsigned: Some(17) }))
    );
    assert_eq!(
        decode("-3"),
        Some(Json::Number(JsonNumber { literal: "-3".to_string(), unsigned: None }))
    );
    assert_eq!(
        decode("1.5"),
        Some(Json::Number(JsonNumber { literal: "1.5".to_string(), unsigned: None }))
    );
}

#[test]
fn decodes_arrays_and_objects() {
    let decoded = decode(r#"{"b": [1, "x"], "a": {"c": null}}"#).unwrap();
    let one = Json::Number(JsonNumber { literal: "1".to_string(), unsigned: Some(1) });
    let expected = Json::Object(vec![
        ("a".to_string(), Json::Object(vec![("c".to_string(), Json::Null)])),
        ("b".to_string(), Json::Array(vec![one, Json::String("x".to_string())])),
    ]);
    assert_eq!(decoded, expected);
}

#[test]
fn rejects_what_is_no_json() {
    assert_eq!(decode(""), None);
    assert_eq!(decode("{"), None);
    assert_eq!(decode("{} {}"), None);
    assert_eq!(decode("Minion a did not respond. No job will be sent."), None);
}

#[test]
fn surrounding_whitespace_is_no_obstacle() {
    assert_eq!(decode("\n\n{}\n"), Some(Json::Object(vec![])));
}

#[test]
fn get_finds_members_of_objects_only() {
    let value = decode(r#"{"ret": {"x": 1}, "retcode": 0}"#).unwrap();
    assert_eq!(value.get("retcode").and_then(|v| v.as_u64()), Some(0));
    assert!(value.get("ret").unwrap().is_object());
    assert!(value.get("other").is_none());
    assert!(value.get("").is_none());
    let array = decode(r#"["ret"]"#).unwrap();
    assert!(array.get("ret").is_none());
    assert!(!array.is_object());
}

#[test]
fn get_takes_the_last_of_equal_keys() {
    let value = Json::Object(vec![
        ("k".to_string(), Json::Bool(false)),
        ("k".to_string(), Json::Bool(true)),
    ]);
    assert_eq!(value.get("k"), Some(&Json::Bool(true)));
}

#[test]
fn empty_object_test() {
    assert!(decode("{}").unwrap().is_empty_object());
    assert!(!decode(r#"{"a": 1}"#).unwrap().is_empty_object());
    assert!(!decode("[]").unwrap().is_empty_object());
    assert!(!decode("null").unwrap().is_empty_object());
}

#[test]
fn as_u64_is_for_unsigned_numbers() {
    assert_eq!(decode("0").unwrap().as_u64(), Some(0));
    assert_eq!(decode("18446744073709551615").unwrap().as_u64(), Some(u64::MAX));
    assert_eq!(decode("-1").unwrap().as_u64(), None);
    assert_eq!(decode("1.0").unwrap().as_u64(), None);
    assert_eq!(decode("\"1\"").unwrap().as_u64(), None);
    assert_eq!(decode("true").unwrap().as_u64(), None);
}
