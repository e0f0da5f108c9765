use serde_json::Value;
use std::time::Duration;
use ttsai::reply::read_document;
use ttsai::{Client, Error, GenerateEvent, GenerateOptions, GenerateStep, Job, JobResult, Method, PollStep};

fn client() -> Client {
    Client::builder("sk".to_string())
        .poll_interval(Duration::from_millis(10))
        .poll_deadline(Duration::from_secs(2))
        .build()
}

fn result(status: &str) -> JobResult {
    JobResult {
        uuid: "abc".into(),
        status: status.into(),
        result_url: None,
        error: None,
        message: None,
        other: serde_json::Map::new(),
    }
}

fn job(status: &str, result_url: Option<&str>) -> Job {
    Job {
        uuid: "abc".into(),
        job_id: None,
        status: status.into(),
        credits_used: Some(11),
        credits_remaining: Some(1000),
        result_url: result_url.map(String::from),
        instructions_supported: None,
        instructions_applied: None,
        boost_supported: None,
        boost_applied: None,
        other: serde_json::Map::new(),
    }
}

#[test]
fn generate_async_posts_expected_body_and_returns_uuid() {
    let client = Client::builder("sk-tts-test".to_string()).build();
    let request = client.generate_async(GenerateOptions {
        text: "hi".into(),
        ..Default::default()
    });
    assert_eq!(request.method, Method::Post);
    assert!(request.url.ends_with("/v1/tts/"));
    assert_eq!(request.body.unwrap().get("text"), Some(&Value::String("hi".into())));
    let reply = br#"{"uuid": "abc", "status": "queued", "credits_used": 11, "credits_remaining": 1000}"#;
    let job = read_document(reply.to_vec()).unwrap();
    assert_eq!(job.get("uuid").unwrap().as_str(), Some("abc"));
    assert_eq!(job.get("credits_used").unwrap().as_u64(), Some(11));
}

#[test]
fn poll_result_returns_completed() {
    let url = client().poll_request("abc").url;
    assert!(url.ends_with("/v1/speech/results/?uuid=abc"));
    let seen = JobResult {
        result_url: Some("https://cdn/test.wav".into()),
        ..result("completed")
    };
    match client().poll_result("abc", seen, Duration::from_millis(1)) {
        PollStep::Completed(res) => {
            assert_eq!(res.status, "completed");
            assert_eq!(res.result_url.as_deref(), Some("https://cdn/test.wav"));
        }
        other => panic!("{other:?}"),
    }
}

#[test]
fn poll_result_raises_on_failed() {
    let seen = JobResult {
        message: Some("boom".into()),
        ..result("failed")
    };
    match client().poll_result("abc", seen, Duration::from_millis(1)) {
        PollStep::Failed(err) => {
            assert!(matches!(err, Error::JobFailed(_)));
            assert!(err.to_string().contains("boom"));
            assert_eq!(err.to_string(), "ttsai: job failed: job abc: boom");
        }
        other => panic!("{other:?}"),
    }
}

fn failure(message: Option<&str>, error: Option<&str>) -> String {
    let seen = JobResult {
        message: message.map(String::from),
        error: error.map(String::from),
        ..result("failed")
    };
    match client().poll_result("u", seen, Duration::from_secs(99)) {
        PollStep::Failed(Error::JobFailed(text)) => text,
        other => panic!("{other:?}"),
    }
}

#[test]
fn the_reason_of_a_failure_is_found() {
    assert_eq!(failure(Some("m"), Some("e")), "job u: m");
    assert_eq!(failure(None, Some("e")), "job u: e");
    assert_eq!(failure(None, None), "job u: unknown error");
}

#[test]
fn a_job_is_waited_for_until_the_deadline() {
    let c = client();
    for status in ["queued", "processing", "", "Completed"] {
        for millis in [0u64, 1999, 2000] {
            let step = c.poll_result("abc", result(status), Duration::from_millis(millis));
            assert!(matches!(step, PollStep::Wait(pause) if pause == Duration::from_millis(10)));
        }
        let late = Duration::from_secs(2) + Duration::from_nanos(1);
        match c.poll_result("abc", result(status), late) {
            PollStep::Failed(Error::Timeout(text)) => {
                assert_eq!(text, "job abc did not complete within 2s");
            }
            other => panic!("{other:?}"),
        }
    }
}

#[test]
fn the_deadline_is_told_with_its_unit() {
    let c = Client::builder("sk".to_string()).poll_deadline(Duration::from_millis(1500)).build();
    match c.poll_result("x", result("queued"), Duration::from_secs(2)) {
        PollStep::Failed(err) => {
            assert_eq!(err.to_string(), "ttsai: timeout: job x did not complete within 1.5s");
        }
        other => panic!("{other:?}"),
    }
}

#[test]
fn a_completed_job_is_taken_however_late() {
    let step = client().poll_result("abc", result("completed"), Duration::from_secs(1000));
    assert!(matches!(step, PollStep::Completed(_)));
}

#[test]
fn audio_at_hand_is_fetched_at_once() {
    let step = client().generate(GenerateEvent::Submitted(job("completed", Some("https://cdn/a"))));
    assert!(matches!(step, GenerateStep::Fetch(url) if url == "https://cdn/a"));
}

#[test]
fn any_other_job_is_looked_at() {
    for j in [job("completed", None), job("queued", Some("https://cdn/a")), job("queued", None)] {
        let step = client().generate(GenerateEvent::Submitted(j));
        assert!(matches!(step, GenerateStep::Poll(uuid) if uuid == "abc"));
    }
}

#[test]
fn the_result_tells_where_the_audio_is() {
    let done = JobResult {
        result_url: Some("https://cdn/b".into()),
        ..result("completed")
    };
    let step = client().generate(GenerateEvent::Completed(done));
    assert!(matches!(step, GenerateStep::Fetch(url) if url == "https://cdn/b"));
    match client().generate(GenerateEvent::Completed(result("completed"))) {
        GenerateStep::Failed(Error::JobFailed(text)) => {
            assert_eq!(text, "completed without result_url");
        }
        other => panic!("{other:?}"),
    }
}

#[test]
fn the_first_decisive_look_decides() {
    let looks = [("queued", 0u64), ("processing", 1500), ("completed", 9000), ("failed", 9001)];
    let mut made = 0;
    for (status, millis) in looks {
        made += 1;
        match client().poll_result("abc", result(status), Duration::from_millis(millis)) {
            PollStep::Wait(_) => continue,
            PollStep::Completed(done) => {
                assert_eq!(done.status, "completed");
                break;
            }
            other => panic!("{other:?}"),
        }
    }
    assert_eq!(made, 3);
}
