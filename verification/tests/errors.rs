use serde_json::Value;
use ttsai::reply::{api_error, map_error};
use ttsai::{Error, JsonValue};

fn transport_error() -> reqwest::Error {
    reqwest::Client::new().get("not a url").build().unwrap_err()
}

fn json_error() -> serde_json::Error {
    serde_json::from_str::<Value>("{").unwrap_err()
}

fn api(status: u16) -> Error {
    Error::Api {
        status,
        code: None,
        message: "m".into(),
        body: None,
    }
}

#[test]
fn error_helpers() {
    let mut body = serde_json::Map::new();
    body.insert("credits_needed".into(), Value::from(5000));
    body.insert("credits_remaining".into(), Value::from(100));
    let e = Error::Api {
        status: 402,
        code: Some("insufficient_credits".into()),
        message: "need 5000".into(),
        body: Some(JsonValue::Object(body)),
    };
    assert!(e.is_insufficient_credits());
    assert!(!e.is_authentication());
    assert_eq!(e.credits_needed(), Some(5000));
    assert_eq!(e.credits_remaining(), Some(100));

    let auth = Error::Api {
        status: 401,
        code: None,
        message: "bad key".into(),
        body: None,
    };
    assert!(auth.is_authentication());
    assert!(!auth.is_insufficient_credits());

    let server = Error::Api {
        status: 503,
        code: None,
        message: "down".into(),
        body: None,
    };
    assert!(server.is_server());
}

#[test]
fn http_402_maps_to_insufficient_credits() {
    let err = map_error(
        402,
        br#"{"error": "insufficient_credits", "message": "need 5000", "credits_needed": 5000, "credits_remaining": 100}"#,
    );
    assert!(err.is_insufficient_credits());
    assert_eq!(err.credits_needed(), Some(5000));
    assert_eq!(err.credits_remaining(), Some(100));
    assert_eq!(
        err.to_string(),
        "ttsai: HTTP 402 (Some(\"insufficient_credits\")): need 5000"
    );
}

#[test]
fn http_401_maps_to_authentication() {
    let err = map_error(401, br#"{"error": "unauthorized", "message": "bad key"}"#);
    assert!(err.is_authentication());
    match err {
        Error::Api { status, code, message, body } => {
            assert_eq!(status, 401);
            assert_eq!(code.as_deref(), Some("unauthorized"));
            assert_eq!(message, "bad key");
            assert!(matches!(body, Some(JsonValue::Object(_))));
        }
        other => panic!("{other:?}"),
    }
}

#[test]
fn each_error_is_of_one_kind() {
    for status in [400u16, 401, 402, 403, 404, 429, 499, 500, 503, 599, 600, 999] {
        let e = api(status);
        assert_eq!(e.is_validation(), status == 400);
        assert_eq!(e.is_authentication(), status == 401);
        assert_eq!(e.is_insufficient_credits(), status == 402);
        assert_eq!(e.is_rate_limit(), status == 429);
        assert_eq!(e.is_server(), status >= 500);
    }
    let e = Error::Timeout("t".into());
    assert!(!e.is_server() && !e.is_validation() && !e.is_rate_limit());
    assert!(!e.is_authentication() && !e.is_insufficient_credits());
    assert_eq!(e.credits_needed(), None);
}

#[test]
fn credits_are_unsigned_integers() {
    for text in [
        r#"{"credits_needed": -1}"#,
        r#"{"credits_needed": 1.5}"#,
        r#"{"credits_needed": "5"}"#,
        r#"{"credits": 5}"#,
        r#"[{"credits_needed": 5}]"#,
        "5",
        "",
    ] {
        assert_eq!(map_error(402, text.as_bytes()).credits_needed(), None);
    }
    let err = map_error(402, br#"{"credits_needed": 18446744073709551615}"#);
    assert_eq!(err.credits_needed(), Some(u64::MAX));
}

fn message_of(error: Error) -> (Option<String>, String) {
    match error {
        Error::Api { code, message, .. } => (code, message),
        other => panic!("{other:?}"),
    }
}

#[test]
fn the_message_comes_from_the_document() {
    let (code, message) = message_of(map_error(400, br#"{"error": "bad", "message": "too long"}"#));
    assert_eq!((code.as_deref(), message.as_str()), (Some("bad"), "too long"));
    let (code, message) = message_of(map_error(400, br#"{"error": "bad"}"#));
    assert_eq!((code.as_deref(), message.as_str()), (Some("bad"), "bad"));
    let (code, message) = message_of(map_error(400, br#"{"error": 7, "message": "m"}"#));
    assert_eq!((code.as_deref(), message.as_str()), (None, "m"));
}

#[test]
fn a_message_that_is_no_string_leaves_the_body_as_it_came() {
    let text = r#"{"error": "bad", "message": 7}"#;
    let (code, message) = message_of(map_error(400, text.as_bytes()));
    assert_eq!((code.as_deref(), message.as_str()), (Some("bad"), text));
}

#[test]
fn a_body_that_is_no_document_is_the_message() {
    let (code, message) = message_of(map_error(502, "Bad Gateway \u{2014}".as_bytes()));
    assert_eq!((code, message.as_str()), (None, "Bad Gateway \u{2014}"));
    let (code, message) = message_of(map_error(502, &[0xff, 0xfe]));
    assert_eq!((code, message.as_str()), (None, "(non-utf8 body)"));
    let (code, message) = message_of(map_error(502, b""));
    assert_eq!((code, message.as_str()), (None, ""));
}

#[test]
fn a_refusal_can_be_told_from_its_parts() {
    let mut o = serde_json::Map::new();
    o.insert("error".into(), Value::String("e".into()));
    let (code, message) = message_of(api_error(400, b"raw", Some(JsonValue::Object(o))));
    assert_eq!((code.as_deref(), message.as_str()), (Some("e"), "e"));
    let (code, message) = message_of(api_error(400, b"raw", Some(JsonValue::Null)));
    assert_eq!((code, message.as_str()), (None, "raw"));
}

#[test]
fn errors_are_put_in_words() {
    assert_eq!(api(7).to_string(), "ttsai: HTTP 7 (None): m");
    assert_eq!(api(65535).to_string(), "ttsai: HTTP 65535 (None): m");
    assert_eq!(Error::Timeout("late".into()).to_string(), "ttsai: timeout: late");
    assert_eq!(Error::JobFailed("boom".into()).to_string(), "ttsai: job failed: boom");
    let e = Error::Api {
        status: 400,
        code: Some("a\"b".into()),
        message: String::new(),
        body: None,
    };
    assert_eq!(e.to_string(), "ttsai: HTTP 400 (Some(\"a\\\"b\")): ");
}

#[test]
fn carried_errors_are_converted_and_put_in_words() {
    let t = Error::from(transport_error());
    assert!(matches!(t, Error::Transport(_)));
    assert_eq!(t.to_string(), format!("ttsai: transport error: {}", transport_error()));
    let j = Error::from(json_error());
    assert!(matches!(j, Error::Json(_)));
    assert_eq!(j.to_string(), format!("ttsai: json error: {}", json_error()));
    let i = Error::from(std::io::Error::new(std::io::ErrorKind::NotFound, "no such audio"));
    assert!(matches!(i, Error::Io(_)));
    assert_eq!(i.to_string(), "ttsai: io error: no such audio");
}

#[test]
fn documents_are_looked_into() {
    let mut o = serde_json::Map::new();
    o.insert("n".into(), Value::from(3));
    o.insert("s".into(), Value::String("x".into()));
    o.insert("a".into(), Value::Array(vec![Value::Null, Value::Bool(true)]));
    let v = JsonValue::Object(o);
    assert_eq!(v.get("n").unwrap().as_u64(), Some(3));
    assert_eq!(v.get("n").unwrap().as_str(), None);
    assert_eq!(v.get("s").unwrap().as_str(), Some("x"));
    assert_eq!(v.get("s").unwrap().as_u64(), None);
    assert_eq!(v.get("a").unwrap().into_array(), Some(vec![Value::Null, Value::Bool(true)]));
    assert_eq!(v.get("s").unwrap().into_array(), None);
    assert!(v.get("z").is_none());
    assert!(JsonValue::Null.get("n").is_none());
    assert!(matches!(v.clone().get("a"), Some(JsonValue::Array(_))));
}
