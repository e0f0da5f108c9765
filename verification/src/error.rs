//! What can go wrong, and how to tell it.

use crate::json::{Json, JsonValue};
use crate::text::{decimal, decimal_text, joined, option_view};
use reqwest::Error as TransportError;
use serde_json::Error as JsonError;
use std::io::Error as IoError;
use vstd::prelude::*;
use vstd::std_specs::convert::FromSpecImpl;
use vstd::string::to_string_from_display_ensures;

verus! {

/// `reqwest`'s error type, opaque: it is only carried.
#[verifier::external_type_specification]
#[verifier::external_body]
pub struct ExTransportError(TransportError);

/// `std`'s I/O error type, opaque: it is only carried.
#[verifier::external_type_specification]
#[verifier::external_body]
pub struct ExIoError(std::io::Error);

/// SDK error type. Use the `is_*` helpers or pattern-match on the variant to
/// handle specific cases.
#[derive(Debug)]
pub enum Error {
    /// Server-provided structured error for non-2xx responses.
    Api { status: u16, code: Option<String>, message: String, body: Option<JsonValue> },
    /// Job poll exceeded its deadline.
    Timeout(String),
    /// Job ended with `status=failed`.
    JobFailed(String),
    /// Network / TLS / connection error.
    Transport(TransportError),
    /// JSON serialise/deserialise.
    Json(JsonError),
    /// Filesystem error reading reference audio.
    Io(IoError),
}

impl From<TransportError> for Error {
    fn from(error: TransportError) -> (converted: Self) {
        Error::Transport(error)
    }
}

impl FromSpecImpl<TransportError> for Error {
    open spec fn obeys_from_spec() -> bool {
        true
    }

    open spec fn from_spec(error: TransportError) -> Self {
        Error::Transport(error)
    }
}

impl From<JsonError> for Error {
    fn from(error: JsonError) -> (converted: Self) {
        Error::Json(error)
    }
}

impl FromSpecImpl<JsonError> for Error {
    open spec fn obeys_from_spec() -> bool {
        true
    }

    open spec fn from_spec(error: JsonError) -> Self {
        Error::Json(error)
    }
}

impl From<IoError> for Error {
    fn from(error: IoError) -> (converted: Self) {
        Error::Io(error)
    }
}

impl FromSpecImpl<IoError> for Error {
    open spec fn obeys_from_spec() -> bool {
        true
    }

    open spec fn from_spec(error: IoError) -> Self {
        Error::Io(error)
    }
}

/// The text that `std` writes for an optional string when debugging: `None`, or
/// the string quoted and escaped inside `Some(..)`.
pub uninterp spec fn option_debug(value: Option<Seq<char>>) -> Seq<char>;

/// `Debug` of an optional string, under the name [`option_debug`]. Where there is
/// no string the text is `None`.
#[verifier::external_body]
fn option_text(value: &Option<String>) -> (text: String)
    ensures
        text@ == option_debug(option_view(*value)),
        value is None ==> text@ == "None"@,
{
    format!("{:?}", value)
}

/// Whether `text` is an error in words. An error that is carried is told in its own
/// words.
pub open spec fn is_told(error: Error, text: Seq<char>) -> bool {
    match error {
        Error::Api { status, code, message, .. } => {
            &&& text == "ttsai: HTTP "@ + decimal(status as nat) + " ("@ + option_debug(
                option_view(code),
            ) + "): "@ + message@
            &&& code is None ==> option_debug(option_view(code)) == "None"@
        },
        Error::Timeout(detail) => text == "ttsai: timeout: "@ + detail@,
        Error::JobFailed(detail) => text == "ttsai: job failed: "@ + detail@,
        Error::Transport(carried) => exists|detail: String|
            #[trigger] to_string_from_display_ensures(&carried, detail) && text
                == "ttsai: transport error: "@ + detail@,
        Error::Json(carried) => exists|detail: String|
            #[trigger] to_string_from_display_ensures(&carried, detail) && text
                == "ttsai: json error: "@ + detail@,
        Error::Io(carried) => exists|detail: String|
            #[trigger] to_string_from_display_ensures(&carried, detail) && text
                == "ttsai: io error: "@ + detail@,
    }
}

impl Error {
    /// The HTTP status of an error that the service answered with.
    pub open spec fn http_status(self) -> Option<u16> {
        match self {
            Error::Api { status, .. } => Some(status),
            _ => None,
        }
    }

    /// The code that the service gave with an error.
    pub open spec fn http_code(self) -> Option<Seq<char>> {
        match self {
            Error::Api { code, .. } => option_view(code),
            _ => None,
        }
    }

    /// The message of an error that the service answered with.
    pub open spec fn http_message(self) -> Option<Seq<char>> {
        match self {
            Error::Api { message, .. } => Some(message@),
            _ => None,
        }
    }

    /// The document that came with an error, where there was one.
    pub open spec fn http_body(self) -> Option<Json> {
        match self {
            Error::Api { body, .. } => option_view(body),
            _ => None,
        }
    }

    /// The integer under `name` in the document that came with an error.
    pub open spec fn body_integer(self, name: Seq<char>) -> Option<u64> {
        match self.http_body() {
            Some(body) => match body.member(name) {
                Some(value) => value.unsigned(),
                None => None,
            },
            None => None,
        }
    }

    /// The request carried no valid API key (401).
    pub fn is_authentication(&self) -> (answer: bool)
        ensures
            answer == (self.http_status() == Some(401u16)),
    {
        matches!(self, Error::Api { status: 401, .. })
    }

    /// The service asks to slow down (429).
    pub fn is_rate_limit(&self) -> (answer: bool)
        ensures
            answer == (self.http_status() == Some(429u16)),
    {
        matches!(self, Error::Api { status: 429, .. })
    }

    /// The account has too few credits (402).
    pub fn is_insufficient_credits(&self) -> (answer: bool)
        ensures
            answer == (self.http_status() == Some(402u16)),
    {
        matches!(self, Error::Api { status: 402, .. })
    }

    /// The service refused what was asked for (400).
    pub fn is_validation(&self) -> (answer: bool)
        ensures
            answer == (self.http_status() == Some(400u16)),
    {
        matches!(self, Error::Api { status: 400, .. })
    }

    /// The service itself failed (500 and above).
    pub fn is_server(&self) -> (answer: bool)
        ensures
            answer == (self.http_status() matches Some(status) && status >= 500),
    {
        match self {
            Error::Api { status, .. } => *status >= 500,
            _ => false,
        }
    }

    /// The `credits_needed` field of a 402 response, if present.
    pub fn credits_needed(&self) -> (credits: Option<u64>)
        ensures
            credits == self.body_integer("credits_needed"@),
    {
        self.body_field("credits_needed")
    }

    /// The `credits_remaining` field of a 402 response, if present.
    pub fn credits_remaining(&self) -> (credits: Option<u64>)
        ensures
            credits == self.body_integer("credits_remaining"@),
    {
        self.body_field("credits_remaining")
    }

    fn body_field(&self, name: &str) -> (value: Option<u64>)
        ensures
            value == self.body_integer(name@),
    {
        if let Error::Api { body: Some(body), .. } = self {
            if let Some(value) = body.get(name) {
                return value.as_u64();
            }
        }
        None
    }

    /// The error in words. An error that is carried is told in its own words.
    pub fn to_string(&self) -> (text: String)
        ensures
            is_told(*self, text@),
    {
        match self {
            Error::Api { status, code, message, .. } => {
                let mut text = "ttsai: HTTP ".to_string();
                text.append(decimal_text(*status as u64).as_str());
                text.append(" (");
                text.append(option_text(code).as_str());
                text.append("): ");
                text.append(message.as_str());
                text
            },
            Error::Timeout(detail) => joined("ttsai: timeout: ", detail.as_str()),
            Error::JobFailed(detail) => joined("ttsai: job failed: ", detail.as_str()),
            Error::Transport(error) => joined(
                "ttsai: transport error: ",
                (*error).to_string().as_str(),
            ),
            Error::Json(error) => joined("ttsai: json error: ", (*error).to_string().as_str()),
            Error::Io(error) => joined("ttsai: io error: ", (*error).to_string().as_str()),
        }
    }
}

} // verus!
