use minion_report::classify::{classify, classify_status};
use minion_report::host::HostStatus;
use minion_report::json::{decode, Json, JsonNumber};

fn json(text: &str) -> Json {
    decode(text).expect("the text is JSON")
}

fn status(text: &str) -> HostStatus {
    classify_status(&json(text))
}

#[test]
fn unwrapped_shapes() {
    assert_eq!(status(r#"{"a": 1}"#), HostStatus::Success);
    assert_eq!(status(r#"{}"#), HostStatus::RetValueObjectIsEmpty);
    assert_eq!(status(r#"5"#), HostStatus::RetValueNotObject);
    assert_eq!(status(r#""ret""#), HostStatus::RetValueNotObject);
    assert_eq!(status(r#"["ret"]"#), HostStatus::RetValueNotObject);
    assert_eq!(status(r#"null"#), HostStatus::RetValueNotObject);
    assert_eq!(status(r#"false"#), HostStatus::RetValueNotObject);
    assert_eq!(status(r#"{"retcode": 1}"#), HostStatus::Success);
}

#[test]
fn batch_return_codes() {
    assert_eq!(status(r#"{"ret": {"a": 1}}"#), HostStatus::NoReturnCode);
    assert_eq!(status(r#"{"ret": {"a": 1}, "retcode": "0"}"#), HostStatus::ReturnCodeNotNumber);
    assert_eq!(status(r#"{"ret": {"a": 1}, "retcode": -1}"#), HostStatus::ReturnCodeNotNumber);
    assert_eq!(status(r#"{"ret": {"a": 1}, "retcode": 0.0}"#), HostStatus::ReturnCodeNotNumber);
    assert_eq!(status(r#"{"ret": {"a": 1}, "retcode": null}"#), HostStatus::ReturnCodeNotNumber);
    assert_eq!(status(r#"{"ret": {"a": 1}, "retcode": 1}"#), HostStatus::RetCodeWasNotNull);
    assert_eq!(status(r#"{"ret": {"a": 1}, "retcode": 255}"#), HostStatus::RetCodeWasNotNull);
    assert_eq!(
        status(r#"{"ret": {"a": 1}, "retcode": 18446744073709551615}"#),
        HostStatus::RetCodeWasNotNull
    );
    assert_eq!(status(r#"{"ret": {}, "retcode": 1}"#), HostStatus::RetCodeWasNotNull);
}

#[test]
fn batch_payloads() {
    assert_eq!(status(r#"{"ret": {"a": 1}, "retcode": 0}"#), HostStatus::Success);
    assert_eq!(status(r#"{"ret": {}, "retcode": 0}"#), HostStatus::RetValueObjectIsEmpty);
    assert_eq!(status(r#"{"ret": "text", "retcode": 0}"#), HostStatus::RetValueNotObject);
    assert_eq!(status(r#"{"ret": null, "retcode": 0}"#), HostStatus::RetValueNotObject);
    assert_eq!(status(r#"{"ret": [1], "retcode": 0}"#), HostStatus::RetValueNotObject);
    assert_eq!(status(r#"{"ret": false, "retcode": 0, "jid": "1"}"#), HostStatus::RetValueNotObject);
}

#[test]
fn success_keeps_the_whole_value() {
    let text = r#"{"jid": "2024", "ret": {"x": 1}, "retcode": 0}"#;
    let host = classify("web9".to_string(), json(text));
    assert_eq!(host.hostname, "web9");
    assert_eq!(host.status, HostStatus::Success);
    assert_eq!(host.data, Some(json(text)));
    let expected = Json::Object(vec![
        ("jid".to_string(), Json::String("2024".to_string())),
        (
            "ret".to_string(),
            Json::Object(vec![(
                "x".to_string(),
                Json::Number(JsonNumber { literal: "1".to_string(), unsigned: Some(1) }),
            )]),
        ),
        (
            "retcode".to_string(),
            Json::Number(JsonNumber { literal: "0".to_string(), unsigned: Some(0) }),
        ),
    ]);
    assert_eq!(host.data, Some(expected));
}

#[test]
fn failure_keeps_no_data() {
    let host = classify("web9".to_string(), json(r#"{"ret": {"x": 1}, "retcode": 2}"#));
    assert_eq!(host.hostname, "web9");
    assert_eq!(host.status, HostStatus::RetCodeWasNotNull);
    assert_eq!(host.data, None);
}

#[test]
fn classifying_twice_gives_the_same_record() {
    let texts = vec![
        r#"{"a": 1}"#,
        r#"{}"#,
        r#"7"#,
        r#"{"ret": {"x": 1}, "retcode": 0}"#,
        r#"{"ret": {"x": 1}, "retcode": 3}"#,
        r#"{"ret": {"x": 1}}"#,
    ];
    for text in texts {
        let first = classify("h".to_string(), json(text));
        let second = classify("h".to_string(), json(text));
        assert_eq!(first, second);
        assert_ne!(first.status, HostStatus::Uninitialized);
    }
}

#[test]
fn last_member_of_a_key_decides() {
    let zero = Json::Number(JsonNumber { literal: "0".to_string(), unsigned: Some(0) });
    let one = Json::Number(JsonNumber { literal: "1".to_string(), unsigned: Some(1) });
    let body = Json::Object(vec![("k".to_string(), Json::Bool(true))]);
    let value = Json::Object(vec![
        ("retcode".to_string(), one),
        ("ret".to_string(), body),
        ("retcode".to_string(), zero),
    ]);
    assert_eq!(classify_status(&value), HostStatus::Success);
}
