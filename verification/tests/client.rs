use std::time::Duration;
use ttsai::client::DEFAULT_BASE_URL;
use ttsai::Client;

#[test]
fn builder_strips_trailing_slashes() {
    let c = Client::builder("sk".to_string())
        .base_url("https://example.com/".to_string())
        .build();
    assert_eq!(c.base_url(), "https://example.com");
}

#[test]
fn builder_strips_multiple_trailing_slashes() {
    let c = Client::builder("sk".to_string())
        .base_url("https://example.com///".to_string())
        .build();
    assert_eq!(c.base_url(), "https://example.com");
}

#[test]
fn default_user_agent_contains_version() {
    let c = Client::builder("sk".to_string()).build();
    assert!(c.user_agent().starts_with("tts-rust/"));
    assert_eq!(c.user_agent(), "tts-rust/0.1.0 (+https://tts.ai)");
}

#[test]
fn only_trailing_slashes_are_stripped() {
    let c = Client::builder("sk".to_string())
        .base_url("/https://a/b//c/\u{e9}//".to_string())
        .build();
    assert_eq!(c.base_url(), "/https://a/b//c/\u{e9}");
    let c = Client::builder("sk".to_string()).base_url("///".to_string()).build();
    assert_eq!(c.base_url(), "");
    let c = Client::builder("sk".to_string()).base_url(String::new()).build();
    assert_eq!(c.base_url(), "");
}

#[test]
fn stripping_twice_changes_nothing() {
    let once = Client::builder("sk".to_string()).base_url("http://h//".to_string()).build();
    let twice = Client::builder("sk".to_string())
        .base_url(once.base_url().to_string())
        .build();
    assert_eq!(once.base_url(), twice.base_url());
}

#[test]
fn defaults_are_set() {
    let c = Client::new("sk-tts-1".to_string());
    assert_eq!(c.api_key(), "sk-tts-1");
    assert_eq!(c.base_url(), "https://api.tts.ai");
    assert_eq!(DEFAULT_BASE_URL, "https://api.tts.ai");
    assert_eq!(c.max_retries(), 2);
    assert_eq!(c.request_timeout(), Duration::from_secs(180));
    assert_eq!(c.poll_interval(), Duration::from_secs(1));
    assert_eq!(c.poll_deadline(), Duration::from_secs(600));
}

#[test]
fn every_setting_is_kept() {
    let c = Client::builder("sk".to_string())
        .base_url("https://self.hosted".to_string())
        .request_timeout(Duration::from_secs(300))
        .max_retries(3)
        .poll_interval(Duration::from_secs(2))
        .poll_deadline(Duration::from_secs(900))
        .user_agent("my-app/1.0".to_string())
        .build()
        .clone();
    assert_eq!(c.api_key(), "sk");
    assert_eq!(c.base_url(), "https://self.hosted");
    assert_eq!(c.user_agent(), "my-app/1.0");
    assert_eq!(c.max_retries(), 3);
    assert_eq!(c.request_timeout(), Duration::from_secs(300));
    assert_eq!(c.poll_interval(), Duration::from_secs(2));
    assert_eq!(c.poll_deadline(), Duration::from_secs(900));
}

#[test]
fn a_builder_can_be_cloned() {
    let b = Client::builder("sk".to_string()).max_retries(7);
    assert_eq!(b.clone().build().max_retries(), 7);
    assert_eq!(b.max_retries(1).build().max_retries(), 1);
}

#[test]
fn headers_carry_key_and_agent() {
    let c = Client::builder("sk-tts-test".to_string()).user_agent("my-app/1.0".to_string()).build();
    assert!(c.headers_ready());
    let h = c.headers();
    assert_eq!(h.len(), 2);
    assert_eq!(h.get("authorization").unwrap(), "Bearer sk-tts-test");
    assert_eq!(h.get("user-agent").unwrap(), "my-app/1.0");
}

#[test]
fn control_characters_are_no_header_text() {
    assert!(!Client::new("sk\n".to_string()).headers_ready());
    assert!(!Client::new("sk\u{7f}".to_string()).headers_ready());
    assert!(!Client::builder("sk".to_string()).user_agent("a\0".to_string()).build().headers_ready());
    let c = Client::new("sk\t \u{e9}~".to_string());
    assert!(c.headers_ready());
    assert_eq!(c.headers().get("authorization").unwrap().as_bytes(), "Bearer sk\t \u{e9}~".as_bytes());
}
