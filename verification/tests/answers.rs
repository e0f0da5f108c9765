use serde_json::Value;
use ttsai::reply::{read_answer, read_document, read_voices, reply_text, voices};
use ttsai::{Client, Error, JsonValue, Method, NextStep, Outcome};

fn client(max_retries: u32) -> Client {
    Client::builder("sk".to_string()).max_retries(max_retries).build()
}

/// An error that tells neither of a timeout nor of a failed connection.
fn transport_error() -> reqwest::Error {
    reqwest::Client::new().get("not a url").build().unwrap_err()
}

/// An error that tells of a failed connection.
fn refused_connection() -> reqwest::Error {
    let runtime = tokio::runtime::Builder::new_current_thread().enable_all().build().unwrap();
    let send = async { reqwest::Client::new().get("http://127.0.0.1:1/").send().await };
    runtime.block_on(send).unwrap_err()
}

fn failed() -> Outcome {
    Outcome::Failed(transport_error())
}

fn answered(status: u16) -> Outcome {
    Outcome::Answered { status }
}

#[test]
fn server_error_retries_then_succeeds() {
    let c = client(2);
    let (retries, step) = c.json_request(0, answered(503));
    assert_eq!(retries, 1);
    assert!(matches!(step, NextStep::SendAgain { after_secs: 2 }));
    let (retries, step) = c.json_request(retries, answered(200));
    assert_eq!(retries, 1);
    assert!(matches!(step, NextStep::ReadReply));
}

#[test]
fn waits_double_until_retries_are_used_up() {
    let c = client(3);
    let mut retries: u32 = 0;
    let mut waits: Vec<u64> = vec![];
    let last = loop {
        let (again, step) = c.json_request(retries, answered(500));
        retries = again;
        match step {
            NextStep::SendAgain { after_secs } => waits.push(after_secs),
            step => break step,
        }
    };
    assert_eq!(waits, vec![2, 4, 8]);
    assert_eq!(retries, 3);
    assert!(matches!(last, NextStep::ReadError { status: 500 }));
}

#[test]
fn timeouts_and_failed_connections_are_tried_again() {
    let c = client(2);
    for (timed_out, not_connected) in [(true, false), (false, true), (true, true)] {
        let (retries, step) = c.after_failure(1, transport_error(), timed_out, not_connected);
        assert_eq!(retries, 2);
        assert!(matches!(step, NextStep::SendAgain { after_secs: 4 }));
        let (retries, step) = c.after_failure(2, transport_error(), timed_out, not_connected);
        assert_eq!(retries, 2);
        assert!(matches!(step, NextStep::Fail(Error::Transport(_))));
    }
}

#[test]
fn a_refused_connection_is_tried_again() {
    let error = refused_connection();
    assert!(error.is_connect());
    let (retries, step) = client(2).json_request(0, Outcome::Failed(error));
    assert_eq!(retries, 1);
    assert!(matches!(step, NextStep::SendAgain { after_secs: 2 }));
}

#[test]
fn other_transport_errors_fail_after_a_wait() {
    let (retries, step) = client(2).json_request(0, failed());
    assert_eq!(retries, 1);
    assert!(matches!(
        step,
        NextStep::FailAfter { after_secs: 2, error: Error::Transport(_) }
    ));
    let (retries, step) = client(0).json_request(0, failed());
    assert_eq!(retries, 0);
    assert!(matches!(step, NextStep::Fail(Error::Transport(_))));
}

#[test]
fn refusals_are_not_tried_again() {
    let c = client(5);
    for status in [199u16, 300, 400, 401, 402, 404, 429, 499, 600, 999] {
        let (retries, step) = c.json_request(0, answered(status));
        assert_eq!(retries, 0);
        assert!(matches!(step, NextStep::ReadError { status: s } if s == status));
    }
    for status in [200u16, 201, 204, 299] {
        assert!(matches!(c.json_request(3, answered(status)), (3, NextStep::ReadReply)));
    }
    for status in [500u16, 599] {
        let step = client(0).json_request(0, answered(status)).1;
        assert!(matches!(step, NextStep::ReadError { status: s } if s == status));
    }
}

#[test]
fn the_longest_wait_fits() {
    let (retries, step) = client(u32::MAX).json_request(62, answered(503));
    assert_eq!(retries, 63);
    assert!(matches!(step, NextStep::SendAgain { after_secs: 9223372036854775808 }));
}

#[test]
fn waits_are_foretold() {
    let c = client(2);
    assert!(c.waits_after(0, &answered(503)));
    assert!(!c.waits_after(2, &answered(503)));
    assert!(!c.waits_after(0, &answered(404)));
    assert!(!c.waits_after(0, &answered(200)));
    assert!(c.waits_after(1, &failed()));
    assert!(!c.waits_after(2, &failed()));
    assert!(matches!(client(100).json_request(80, answered(200)), (80, NextStep::ReadReply)));
}

#[test]
fn an_upload_that_meets_a_fault_is_sent_again() {
    let c = client(3);
    let (retries, step) = c.multipart_request(0, answered(503));
    assert_eq!(retries, 1);
    assert!(matches!(step, NextStep::SendAgain { after_secs: 2 }));
    let (retries, step) = c.multipart_request(retries, answered(200));
    assert_eq!(retries, 1);
    assert!(matches!(step, NextStep::ReadReply));
    let reply = br#"{"uuid":"abc","status":"queued"}"#.to_vec();
    let reply = read_answer(step, reply).unwrap();
    let job = read_document(reply).unwrap();
    assert_eq!(job.get("uuid").unwrap().as_str(), Some("abc"));
}

#[test]
fn an_upload_that_finds_no_connection_is_sent_again() {
    let c = client(2);
    let step = c.multipart_request(0, Outcome::Failed(refused_connection()));
    assert!(matches!(step, (1, NextStep::SendAgain { after_secs: 2 })));
    let step = c.multipart_request(2, Outcome::Failed(refused_connection()));
    assert!(matches!(step, (2, NextStep::Fail(Error::Transport(_)))));
    let step = c.after_form_failure(1, transport_error(), true);
    assert!(matches!(step, (2, NextStep::SendAgain { after_secs: 4 })));
    let step = c.after_form_failure(2, transport_error(), true);
    assert!(matches!(step, (2, NextStep::Fail(Error::Transport(_)))));
    let step = c.after_form_failure(0, transport_error(), false);
    assert!(matches!(step, (0, NextStep::Fail(Error::Transport(_)))));
}

#[test]
fn an_upload_is_given_up_without_a_wait() {
    let c = client(2);
    let step = c.multipart_request(2, answered(503));
    assert!(matches!(step, (2, NextStep::ReadError { status: 503 })));
    let step = c.multipart_request(0, answered(413));
    assert!(matches!(step, (0, NextStep::ReadError { status: 413 })));
    let step = c.multipart_request(2, failed());
    assert!(matches!(step, (2, NextStep::Fail(Error::Transport(_)))));
    let step = c.multipart_request(0, failed());
    assert!(matches!(step, (0, NextStep::Fail(Error::Transport(_)))));
}

#[test]
fn an_answer_is_its_body_or_an_error() {
    assert_eq!(read_answer(NextStep::ReadReply, vec![0, 255]).unwrap(), vec![0, 255]);
    assert_eq!(read_answer(NextStep::ReadReply, vec![]).unwrap(), Vec::<u8>::new());
    let error = read_answer(NextStep::ReadError { status: 401 }, b"no".to_vec()).unwrap_err();
    assert!(error.is_authentication());
    assert_eq!(error.to_string(), "ttsai: HTTP 401 (None): no");
}

#[test]
fn downloads_ask_for_the_url_itself() {
    let c = Client::builder("secret".to_string()).base_url("http://h".to_string()).build();
    let request = c.download_request("https://cdn/a b?x=1");
    assert_eq!(request.method, Method::Get);
    assert_eq!(request.url, "https://cdn/a b?x=1");
    assert!(request.headers.is_empty());
    let step = c.fetch_url(answered(200));
    assert_eq!(read_answer(step, vec![1, 2, 3]).unwrap(), vec![1, 2, 3]);
}

#[test]
fn downloads_fail_with_their_status() {
    let c = client(2);
    assert!(matches!(c.fetch_url(answered(206)), NextStep::ReadReply));
    assert!(matches!(c.fetch_url(failed()), NextStep::Fail(Error::Transport(_))));
    for (status, expected) in [
        (404u16, "download failed: HTTP 404 Not Found"),
        (503, "download failed: HTTP 503 Service Unavailable"),
        (999, "download failed: HTTP 999 <unknown status code>"),
    ] {
        match c.fetch_url(answered(status)) {
            NextStep::Fail(Error::Api { status: s, code, message, body }) => {
                assert_eq!(s, status);
                assert_eq!(code, None);
                assert_eq!(message, expected);
                assert!(body.is_none());
            }
            other => panic!("{other:?}"),
        }
    }
}

#[test]
fn list_voices_filters_via_query_string() {
    let url = client(2).list_voices(Some("kokoro"), Some("en")).url;
    assert!(url.ends_with("/v1/voices/?model=kokoro&language=en"));
    let reply = br#"{"voices": [{"id": "af_bella", "language": "en"}], "total": 1}"#;
    let voices = read_voices(reply.to_vec()).unwrap();
    assert_eq!(voices.len(), 1);
    assert_eq!(voices[0].get("id"), Some(&Value::String("af_bella".into())));
}

#[test]
fn what_is_no_catalog_lists_no_voices() {
    for reply in [r#"{}"#, r#"{"voices": 3}"#, r#"[1]"#, "null", ""] {
        assert!(read_voices(reply.as_bytes().to_vec()).unwrap().is_empty());
    }
    assert!(voices(&JsonValue::Null).is_empty());
    assert!(matches!(read_voices(b"<html>".to_vec()), Err(Error::Json(_))));
}

#[test]
fn an_empty_reply_is_null() {
    assert_eq!(reply_text(vec![]), b"null".to_vec());
    assert_eq!(reply_text(b" ".to_vec()), b" ".to_vec());
    assert!(matches!(read_document(vec![]), Ok(JsonValue::Null)));
    let error = read_document(b" ".to_vec()).unwrap_err();
    let expected = serde_json::from_str::<Value>(" ").unwrap_err();
    assert_eq!(error.to_string(), format!("ttsai: json error: {expected}"));
}

#[test]
fn documents_are_read() {
    assert!(matches!(read_document(b"true".to_vec()), Ok(JsonValue::Bool(true))));
    assert_eq!(read_document(b"12".to_vec()).unwrap().as_u64(), Some(12));
    assert_eq!(read_document(b"\"a\"".to_vec()).unwrap().as_str(), Some("a"));
    assert_eq!(read_document(b"[1, 2]".to_vec()).unwrap().into_array().unwrap().len(), 2);
    assert!(matches!(read_document(b"{\"a\": 1}".to_vec()), Ok(JsonValue::Object(_))));
}

#[test]
fn subtitles_returns_srt() {
    let url = client(2).subtitles("u", "srt").url;
    assert!(url.ends_with("/v1/speech/subtitles/?uuid=u&format=srt"));
    let reply = br#"{"format": "srt", "content": "1\n00:00:00,000 --> 00:00:01,000\nhi\n", "cached": false}"#;
    let res = read_document(reply.to_vec()).unwrap();
    assert_eq!(res.get("format").unwrap().as_str(), Some("srt"));
    let content = res.get("content").unwrap();
    assert!(content.as_str().unwrap().contains("00:00:00,000 --> 00:00:01,000"));
}
