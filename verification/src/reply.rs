//! What is made of the answers to requests.

use crate::client::Client;
use crate::error::Error;
use crate::json::{json_parse, json_text, null_text, parse_json, Json, JsonValue};
use crate::text::{decimal, joined, option_view};
use reqwest::Error as TransportError;
use serde_json::Value;
use vstd::arithmetic::power2::pow2;
use vstd::prelude::*;
use vstd::utf8::{decode_utf8, encode_utf8, valid_utf8};

verus! {

/// What came of sending a request.
#[derive(Debug)]
pub enum Outcome {
    /// Nothing came back.
    Failed(TransportError),
    /// An answer of this status came back. Its body has not been read yet.
    Answered { status: u16 },
}

/// What to do after a request was sent.
#[derive(Debug)]
pub enum NextStep {
    /// Wait so many seconds, and send the request again.
    SendAgain { after_secs: u64 },
    /// Wait so many seconds, and give up.
    FailAfter { after_secs: u64, error: Error },
    /// Give up.
    Fail(Error),
    /// Read the body of the answer: it tells about an error of this status.
    ReadError { status: u16 },
    /// Read the body of the answer: it is what was asked for.
    ReadReply,
}

/// Whether a status tells of success.
pub open spec fn success_status(status: u16) -> bool {
    200 <= status < 300
}

/// Whether a status tells of a fault on the side of the service.
pub open spec fn server_fault_status(status: u16) -> bool {
    500 <= status < 600
}

/// Whether a number is an HTTP status.
pub open spec fn valid_status(status: u16) -> bool {
    100 <= status < 1000
}

/// How many seconds pass before a request is sent for the `retry`-th time again:
/// they double each time.
pub open spec fn backoff_secs(retry: nat) -> nat {
    pow2(retry)
}

/// Whether an error tells that time ran out.
pub uninterp spec fn timeout_error(error: TransportError) -> bool;

/// Whether an error tells that no connection could be made.
pub uninterp spec fn connect_error(error: TransportError) -> bool;

/// `reqwest::Error::is_timeout`, under the name [`timeout_error`].
pub assume_specification [TransportError::is_timeout] (error: &TransportError) -> (answer: bool)
    ensures
        answer == timeout_error(*error),
;

/// `reqwest::Error::is_connect`, under the name [`connect_error`].
pub assume_specification [TransportError::is_connect] (error: &TransportError) -> (answer: bool)
    ensures
        answer == connect_error(*error),
;

/// What to do after a JSON request failed, and how often it was sent again once
/// that is done. `retries` tells how often it was so far, `max_retries` how often
/// it may be. The flags tell whether time ran out, and whether no connection
/// could be made: only that is worth another try.
pub open spec fn failure_step(
    max_retries: u32,
    retries: u32,
    error: TransportError,
    timed_out: bool,
    not_connected: bool,
) -> (u32, NextStep) {
    let again = (retries + 1) as u32;
    let after_secs = backoff_secs(again as nat) as u64;
    if retries >= max_retries {
        (retries, NextStep::Fail(Error::Transport(error)))
    } else if timed_out || not_connected {
        (again, NextStep::SendAgain { after_secs })
    } else {
        (again, NextStep::FailAfter { after_secs, error: Error::Transport(error) })
    }
}

/// What to do after a form failed, and how often it was sent again once that is
/// done. The flag tells whether no connection could be made: only that is worth
/// another try, and any other failure is final at once.
pub open spec fn form_failure_step(
    max_retries: u32,
    retries: u32,
    error: TransportError,
    not_connected: bool,
) -> (u32, NextStep) {
    let again = (retries + 1) as u32;
    if not_connected && retries < max_retries {
        (again, NextStep::SendAgain { after_secs: backoff_secs(again as nat) as u64 })
    } else {
        (retries, NextStep::Fail(Error::Transport(error)))
    }
}

/// What to do after a JSON request or a form was answered, and how often it was
/// sent again once that is done. A fault of the service is worth another try.
pub open spec fn answer_step(max_retries: u32, retries: u32, status: u16) -> (u32, NextStep) {
    if server_fault_status(status) && retries < max_retries {
        let again = (retries + 1) as u32;
        (again, NextStep::SendAgain { after_secs: backoff_secs(again as nat) as u64 })
    } else {
        (retries, read_step(status))
    }
}

/// What to do after a JSON request was sent, and how often it was sent again once
/// that is done.
pub open spec fn json_step(max_retries: u32, retries: u32, outcome: Outcome) -> (u32, NextStep) {
    match outcome {
        Outcome::Failed(error) => failure_step(
            max_retries,
            retries,
            error,
            timeout_error(error),
            connect_error(error),
        ),
        Outcome::Answered { status } => answer_step(max_retries, retries, status),
    }
}

/// What to do after a form was sent, and how often it was sent again once that is
/// done.
pub open spec fn form_step(max_retries: u32, retries: u32, outcome: Outcome) -> (u32, NextStep) {
    match outcome {
        Outcome::Failed(error) => form_failure_step(
            max_retries,
            retries,
            error,
            connect_error(error),
        ),
        Outcome::Answered { status } => answer_step(max_retries, retries, status),
    }
}

/// Whether a JSON request that was sent again `retries` times is followed by a
/// wait, after which it may be sent once more or given up. A form is followed by
/// one only then.
pub open spec fn waits_after(max_retries: u32, retries: u32, outcome: Outcome) -> bool {
    &&& retries < max_retries
    &&& outcome matches Outcome::Answered { status } ==> server_fault_status(status)
}

/// Which body an answer that is not tried again has.
pub open spec fn read_step(status: u16) -> NextStep {
    if success_status(status) {
        NextStep::ReadReply
    } else {
        NextStep::ReadError { status }
    }
}

/// A status in words, as `reqwest` writes it.
pub uninterp spec fn status_text(status: u16) -> Seq<char>;

/// `Display` of `reqwest::StatusCode`, under the name [`status_text`]: the number
/// of the status in decimal digits, a space, and the reason.
#[verifier::external_body]
fn status_line(status: u16) -> (text: String)
    requires
        valid_status(status),
    ensures
        text@ == status_text(status),
        (decimal(status as nat) + " "@).is_prefix_of(text@),
{
    reqwest::StatusCode::from_u16(status).unwrap().to_string()
}

/// Whether `step` is what to do after a download was asked for. It is not tried
/// again.
pub open spec fn is_fetch_step(outcome: Outcome, step: NextStep) -> bool {
    match outcome {
        Outcome::Failed(error) => step == NextStep::Fail(Error::Transport(error)),
        Outcome::Answered { status } => if success_status(status) {
            step is ReadReply
        } else {
            &&& step matches NextStep::Fail(error)
            &&& error.http_status() == Some(status)
            &&& error.http_code() is None
            &&& error.http_message() == Some("download failed: HTTP "@ + status_text(status))
            &&& error.http_body() is None
            &&& (decimal(status as nat) + " "@).is_prefix_of(status_text(status))
        },
    }
}

/// `std::str::from_utf8`: the text that bytes are the UTF-8 form of, if they are.
#[verifier::external_body]
fn utf8_text(bytes: &[u8]) -> (text: Option<&str>)
    ensures
        match text {
            Some(s) => valid_utf8(bytes@) && encode_utf8(s@) == bytes@,
            None => !valid_utf8(bytes@),
        },
{
    std::str::from_utf8(bytes).ok()
}

/// The code in the document that came with an error.
pub open spec fn error_code(body: Option<Json>) -> Option<Seq<char>> {
    match body {
        Some(b) => match b.member("error"@) {
            Some(value) => value.text(),
            None => None,
        },
        None => None,
    }
}

/// The text under `message` in the document that came with an error, or under
/// `error` where there is no `message`.
pub open spec fn stated_message(body: Option<Json>) -> Option<Seq<char>> {
    match body {
        Some(b) => match b.member("message"@) {
            Some(value) => value.text(),
            None => match b.member("error"@) {
                Some(value) => value.text(),
                None => None,
            },
        },
        None => None,
    }
}

/// The message of an error: what its document states, or else the body as it came.
pub open spec fn error_message(body: Option<Json>, bytes: Seq<u8>) -> Seq<char> {
    match stated_message(body) {
        Some(message) => message,
        None => if valid_utf8(bytes) {
            decode_utf8(bytes)
        } else {
            "(non-utf8 body)"@
        },
    }
}

/// Whether `error` is what an answer of `status` means whose body is `bytes`, and
/// `body` as a document.
pub open spec fn is_api_error(
    error: Error,
    status: u16,
    bytes: Seq<u8>,
    body: Option<Json>,
) -> bool {
    &&& error.http_status() == Some(status)
    &&& error.http_code() == error_code(body)
    &&& error.http_message() == Some(error_message(body, bytes))
    &&& error.http_body() == body
}

/// The string under `key` of a document, if there is one.
fn string_member(document: &JsonValue, key: &str) -> (text: Option<String>)
    ensures
        option_view(text) == (match document@.member(key@) {
            Some(value) => value.text(),
            None => None,
        }),
{
    match document.get(key) {
        Some(JsonValue::String(text)) => Some(text),
        _ => None,
    }
}

/// The error that an answer of `status` means whose body is `bytes`, and `body`
/// where it is a JSON document.
pub fn api_error(status: u16, bytes: &[u8], body: Option<JsonValue>) -> (error: Error)
    ensures
        is_api_error(error, status, bytes@, option_view(body)),
{
    let code = match &body {
        Some(document) => string_member(document, "error"),
        None => None,
    };
    let stated = match &body {
        Some(document) => if document.get("message").is_some() {
            string_member(document, "message")
        } else {
            string_member(document, "error")
        },
        None => None,
    };
    let message = match stated {
        Some(message) => message,
        None => match utf8_text(bytes) {
            Some(text) => {
                proof {
                    vstd::utf8::encode_utf8_decode_utf8(text@);
                }
                text.to_string()
            },
            None => "(non-utf8 body)".to_string(),
        },
    };
    Error::Api { status, code, message, body }
}

/// The error that an answer of `status` with the body `bytes` means.
pub fn map_error(status: u16, bytes: &[u8]) -> (error: Error)
    ensures
        is_api_error(error, status, bytes@, json_text(bytes@)),
{
    let body = match parse_json(bytes) {
        Ok(document) => Some(document),
        Err(_) => None,
    };
    api_error(status, bytes, body)
}

/// Whether `result` is what an answer comes to whose body `step` says to read, and
/// whose body is `bytes`.
pub open spec fn is_answer(step: NextStep, bytes: Seq<u8>, result: Result<Vec<u8>, Error>) -> bool {
    match step {
        NextStep::ReadReply => result matches Ok(reply) && reply@ == bytes,
        NextStep::ReadError { status } => result matches Err(error) && is_api_error(
            error,
            status,
            bytes,
            json_text(bytes),
        ),
        _ => false,
    }
}

/// What an answer comes to whose body `step` says to read, and whose body is
/// `bytes`: a reply is its body, anything else is an error.
pub fn read_answer(step: NextStep, bytes: Vec<u8>) -> (result: Result<Vec<u8>, Error>)
    requires
        step is ReadReply || step is ReadError,
    ensures
        is_answer(step, bytes@, result),
{
    match step {
        NextStep::ReadError { status } => Err(map_error(status, bytes.as_slice())),
        _ => Ok(bytes),
    }
}

/// The JSON text of a reply: an empty one counts as `null`.
pub open spec fn reply_bytes(bytes: Seq<u8>) -> Seq<u8> {
    if bytes.len() == 0 {
        null_text()
    } else {
        bytes
    }
}

/// The JSON text of the reply to a JSON request.
pub fn reply_text(bytes: Vec<u8>) -> (text: Vec<u8>)
    ensures
        text@ == reply_bytes(bytes@),
{
    if bytes.len() == 0 {
        "null".as_bytes_vec()
    } else {
        bytes
    }
}

/// The document that a reply to a JSON request is.
pub fn read_document(bytes: Vec<u8>) -> (document: Result<JsonValue, Error>)
    ensures
        match json_parse(reply_bytes(bytes@)) {
            Ok(json) => document matches Ok(value) && value@ == json,
            Err(error) => document matches Err(Error::Json(carried)) && carried == error,
        },
        bytes@.len() == 0 ==> (document matches Ok(value) && value@ is Null),
{
    let text = reply_text(bytes);
    match parse_json(text.as_slice()) {
        Ok(document) => Ok(document),
        Err(error) => Err(Error::from(error)),
    }
}

/// The voices that a catalog lists.
pub open spec fn listed_voices(catalog: Json) -> Seq<Value> {
    match catalog.member("voices"@) {
        Some(value) => match value.items() {
            Some(items) => items,
            None => Seq::empty(),
        },
        None => Seq::empty(),
    }
}

/// The voices that a catalog lists. What is no catalog lists none.
pub fn voices(catalog: &JsonValue) -> (voices: Vec<Value>)
    ensures
        voices@ == listed_voices(catalog@),
{
    match catalog.get("voices") {
        Some(value) => match value.into_array() {
            Some(items) => items,
            None => Vec::new(),
        },
        None => Vec::new(),
    }
}

/// The voices that the reply to a request for the voice catalog lists.
pub fn read_voices(bytes: Vec<u8>) -> (listed: Result<Vec<Value>, Error>)
    ensures
        match json_parse(reply_bytes(bytes@)) {
            Ok(json) => listed matches Ok(values) && values@ == listed_voices(json),
            Err(error) => listed matches Err(Error::Json(carried)) && carried == error,
        },
        bytes@.len() == 0 ==> (listed matches Ok(values) && values@.len() == 0),
{
    match read_document(bytes) {
        Ok(catalog) => Ok(voices(&catalog)),
        Err(error) => Err(error),
    }
}

fn is_success(status: u16) -> (success: bool)
    ensures
        success == success_status(status),
{
    200 <= status && status < 300
}

fn is_server_fault(status: u16) -> (fault: bool)
    ensures
        fault == server_fault_status(status),
{
    500 <= status && status < 600
}

/// The seconds that pass before the `retry`-th time that a request is sent again.
fn backoff(retry: u32) -> (secs: u64)
    requires
        retry < 64,
    ensures
        secs == backoff_secs(retry as nat),
{
    proof {
        vstd::arithmetic::power2::lemma2_to64();
        vstd::arithmetic::power2::lemma2_to64_rest();
        vstd::bits::lemma_u64_shl_is_mul(1, retry as u64);
        vstd::bits::lemma_u64_pow2_no_overflow(retry as nat);
    }
    1u64 << retry
}

fn reading(status: u16) -> (step: NextStep)
    ensures
        step == read_step(status),
{
    if is_success(status) {
        NextStep::ReadReply
    } else {
        NextStep::ReadError { status }
    }
}

impl Client {
    /// Whether a JSON request that was sent again `retries` times is followed by a
    /// wait. A form is followed by one only then.
    pub fn waits_after(&self, retries: u32, outcome: &Outcome) -> (waits: bool)
        ensures
            waits == waits_after(self@.max_retries, retries, *outcome),
    {
        match outcome {
            Outcome::Failed(_) => retries < self.max_retries(),
            Outcome::Answered { status } => is_server_fault(*status) && retries
                < self.max_retries(),
        }
    }

    /// What to do after a JSON request was sent that had been sent again `retries`
    /// times before, and how often it has been sent again once that is done. The
    /// seconds of a wait fit for the first sixty-three times.
    pub fn json_request(&self, retries: u32, outcome: Outcome) -> (next: (u32, NextStep))
        requires
            waits_after(self@.max_retries, retries, outcome) ==> retries < 63,
        ensures
            next == json_step(self@.max_retries, retries, outcome),
    {
        match outcome {
            Outcome::Failed(error) => {
                let timed_out = error.is_timeout();
                let not_connected = error.is_connect();
                self.after_failure(retries, error, timed_out, not_connected)
            },
            Outcome::Answered { status } => self.after_answer(retries, status),
        }
    }

    /// What to do after a request was answered that had been sent again `retries`
    /// times before, and how often it has been sent again once that is done.
    fn after_answer(&self, retries: u32, status: u16) -> (next: (u32, NextStep))
        requires
            server_fault_status(status) && retries < self@.max_retries ==> retries < 63,
        ensures
            next == answer_step(self@.max_retries, retries, status),
    {
        if is_server_fault(status) && retries < self.max_retries() {
            let again: u32 = retries + 1;
            (again, NextStep::SendAgain { after_secs: backoff(again) })
        } else {
            (retries, reading(status))
        }
    }

    /// What to do after a JSON request failed that had been sent again `retries`
    /// times before, and how often it has been sent again once that is done.
    pub fn after_failure(
        &self,
        retries: u32,
        error: TransportError,
        timed_out: bool,
        not_connected: bool,
    ) -> (next: (u32, NextStep))
        requires
            retries < self@.max_retries ==> retries < 63,
        ensures
            next == failure_step(self@.max_retries, retries, error, timed_out, not_connected),
    {
        if retries < self.max_retries() {
            let again: u32 = retries + 1;
            let after_secs: u64 = backoff(again);
            if !timed_out && !not_connected {
                (again, NextStep::FailAfter { after_secs, error: Error::from(error) })
            } else {
                (again, NextStep::SendAgain { after_secs })
            }
        } else {
            (retries, NextStep::Fail(Error::from(error)))
        }
    }

    /// What to do after a form was sent that had been sent again `retries` times
    /// before, and how often it has been sent again once that is done. The seconds
    /// of a wait fit for the first sixty-three times.
    pub fn multipart_request(&self, retries: u32, outcome: Outcome) -> (next: (u32, NextStep))
        requires
            waits_after(self@.max_retries, retries, outcome) ==> retries < 63,
        ensures
            next == form_step(self@.max_retries, retries, outcome),
    {
        match outcome {
            Outcome::Failed(error) => {
                let not_connected = error.is_connect();
                self.after_form_failure(retries, error, not_connected)
            },
            Outcome::Answered { status } => self.after_answer(retries, status),
        }
    }

    /// What to do after a form failed that had been sent again `retries` times
    /// before, and how often it has been sent again once that is done.
    pub fn after_form_failure(
        &self,
        retries: u32,
        error: TransportError,
        not_connected: bool,
    ) -> (next: (u32, NextStep))
        requires
            not_connected && retries < self@.max_retries ==> retries < 63,
        ensures
            next == form_failure_step(self@.max_retries, retries, error, not_connected),
    {
        if not_connected && retries < self.max_retries() {
            let again: u32 = retries + 1;
            (again, NextStep::SendAgain { after_secs: backoff(again) })
        } else {
            (retries, NextStep::Fail(Error::from(error)))
        }
    }

    /// What to do after a download was asked for.
    pub fn fetch_url(&self, outcome: Outcome) -> (step: NextStep)
        requires
            outcome matches Outcome::Answered { status } ==> valid_status(status),
        ensures
            is_fetch_step(outcome, step),
    {
        match outcome {
            Outcome::Failed(error) => NextStep::Fail(Error::from(error)),
            Outcome::Answered { status } => {
                if is_success(status) {
                    NextStep::ReadReply
                } else {
                    let message = joined("download failed: HTTP ", status_line(status).as_str());
                    NextStep::Fail(Error::Api { status, code: None, message, body: None })
                }
            },
        }
    }
}

} // verus!
