//! What a refusal is turned into, and what an error tells.

use crate::error::{option_debug, Error};
use crate::json::{json_parse, members, number_u64, Json, JsonValue};
use crate::reply::{api_error, map_error, read_answer, NextStep};
use reqwest::Error as TransportError;
use serde_json::Error as JsonError;
use std::io::Error as IoError;
use vstd::prelude::*;
use vstd::string::to_string_from_display_ensures;
use vstd::utf8::{encode_utf8, valid_utf8};

verus! {

/// The member under `key`, where there is a document and it is an object that has
/// one.
pub open spec fn member_of(document: Option<Json>, key: Seq<char>) -> Option<Json> {
    if document is Some && document->0 is Object && members(document->0->Object_0).contains_key(
        key,
    ) {
        Some(members(document->0->Object_0)[key])
    } else {
        None
    }
}

/// An error that is made of an answer carries the status of that answer, whatever it
/// is, and so is of the kind that the status tells: a bad key exactly if it is 401,
/// too few credits exactly if 402, too many requests exactly if 429, a bad request
/// exactly if 400, and a fault of the service exactly if it is 500 or more.
pub proof fn law_an_error_is_what_its_status_tells(
    status: u16,
    bytes: &[u8],
    error: Error,
    key: bool,
    credits: bool,
    rate: bool,
    validation: bool,
    server: bool,
)
    requires
        call_ensures(map_error, (status, bytes), error),
        call_ensures(Error::is_authentication, (&error,), key),
        call_ensures(Error::is_insufficient_credits, (&error,), credits),
        call_ensures(Error::is_rate_limit, (&error,), rate),
        call_ensures(Error::is_validation, (&error,), validation),
        call_ensures(Error::is_server, (&error,), server),
    ensures
        error matches Error::Api { status: told, .. } && told == status,
        key <==> status == 401,
        credits <==> status == 402,
        rate <==> status == 429,
        validation <==> status == 400,
        server <==> status >= 500,
{
}

/// An answer whose body is to be read as an error of some status is refused with the
/// error that its status and its body mean: the same status, code, message and
/// document.
pub proof fn law_an_answer_is_refused_with_what_it_means(
    status: u16,
    bytes: Vec<u8>,
    slice: &[u8],
    result: Result<Vec<u8>, Error>,
    meant: Error,
)
    requires
        slice@ == bytes@,
        call_ensures(read_answer, (NextStep::ReadError { status }, bytes), result),
        call_ensures(map_error, (status, slice), meant),
    ensures
        result matches Err(Error::Api { status: s, code: c, message: m, body: b }) && (
        meant matches Error::Api { status: t, code: d, message: n, body: e } && s == t && s == status
            && m@ == n@ && (c is Some <==> d is Some) && (c is Some ==> c->0@ == d->0@) && (
        b is Some <==> e is Some) && (b is Some ==> b->0@ == e->0@)),
{
}

/// What kind an error is of follows from its status alone. An error that is no answer
/// of the service is of no kind.
pub proof fn law_kinds_are_told_by_the_status(
    error: Error,
    key: bool,
    credits: bool,
    rate: bool,
    validation: bool,
    server: bool,
)
    requires
        call_ensures(Error::is_authentication, (&error,), key),
        call_ensures(Error::is_insufficient_credits, (&error,), credits),
        call_ensures(Error::is_rate_limit, (&error,), rate),
        call_ensures(Error::is_validation, (&error,), validation),
        call_ensures(Error::is_server, (&error,), server),
    ensures
        match error {
            Error::Api { status, .. } => {
                &&& key <==> status == 401
                &&& credits <==> status == 402
                &&& rate <==> status == 429
                &&& validation <==> status == 400
                &&& server <==> status >= 500
            },
            _ => !key && !credits && !rate && !validation && !server,
        },
{
}

/// An error that is made of a status, the bytes of an answer and the document that
/// they are carries that status and that document. Its code is the string under
/// `error`, and no other.
pub proof fn law_status_code_and_body_are_kept(
    status: u16,
    bytes: &[u8],
    body: Option<JsonValue>,
    error: Error,
)
    requires
        call_ensures(api_error, (status, bytes, body), error),
    ensures
        error matches Error::Api { status: told, code, body: carried, .. } && told == status && (
        carried is Some <==> body is Some) && (body is Some ==> carried->0@ == body->0@) && (
        code is Some <==> (body is Some && (member_of(Some(body->0@), "error"@) matches Some(
            Json::String(_),
        )))) && (code is Some ==> member_of(Some(body->0@), "error"@) == Some(
            Json::String(code->0@),
        )),
{
}

/// The message of an error is the string under `message`; where there is nothing
/// under `message`, the string under `error`; and where that gives no string, the
/// body as text, or that it is none.
pub proof fn law_the_message_is_what_the_service_said(
    status: u16,
    bytes: &[u8],
    body: Option<JsonValue>,
    error: Error,
)
    requires
        call_ensures(api_error, (status, bytes, body), error),
    ensures
        error matches Error::Api { message, .. } && {
            let document = match body {
                Some(value) => Some(value@),
                None => None,
            };
            let stated = match member_of(document, "message"@) {
                Some(member) => Some(member),
                None => member_of(document, "error"@),
            };
            &&& stated matches Some(Json::String(text)) ==> message@ == text
            &&& !(stated matches Some(Json::String(_))) && valid_utf8(bytes@) ==> encode_utf8(
                message@,
            ) == bytes@
            &&& !(stated matches Some(Json::String(_))) && !valid_utf8(bytes@) ==> message@
                == "(non-utf8 body)"@
        },
{
    if valid_utf8(bytes@) {
        vstd::utf8::decode_utf8_encode_utf8(bytes@);
    }
}

/// An error that is made of the bytes of an answer is the one that is made of them and
/// of the document that they are read as: it has the same code, message and document.
pub proof fn law_a_refusal_is_read_as_a_document(
    status: u16,
    bytes: &[u8],
    body: Option<JsonValue>,
    read: Error,
    made: Error,
)
    requires
        body is Some <==> json_parse(bytes@) is Ok,
        body matches Some(value) ==> json_parse(bytes@)->Ok_0 == value@,
        call_ensures(map_error, (status, bytes), read),
        call_ensures(api_error, (status, bytes, body), made),
    ensures
        read matches Error::Api { status: s, code: c, message: m, body: b } && (made matches Error::Api {
            status: t,
            code: d,
            message: n,
            body: e,
        } && s == t && m@ == n@ && (c is Some <==> d is Some) && (c is Some ==> c->0@ == d->0@) && (
        b is Some <==> e is Some) && (b is Some ==> b->0@ == e->0@)),
{
}

/// The credits that an error tells of are the integers under `credits_needed` and
/// `credits_remaining` of the document that it carries, and none without one.
pub proof fn law_credits_are_read_from_the_body(
    error: Error,
    needed: Option<u64>,
    remaining: Option<u64>,
)
    requires
        call_ensures(Error::credits_needed, (&error,), needed),
        call_ensures(Error::credits_remaining, (&error,), remaining),
    ensures
        error matches Error::Api { body: Some(document), .. } ==> {
            &&& needed == (match member_of(Some(document@), "credits_needed"@) {
                Some(Json::Number(number)) => number_u64(number),
                _ => None,
            })
            &&& remaining == (match member_of(Some(document@), "credits_remaining"@) {
                Some(Json::Number(number)) => number_u64(number),
                _ => None,
            })
        },
        !(error matches Error::Api { body: Some(_), .. }) ==> needed is None && remaining is None,
{
}

/// The number that decimal digits stand for.
pub open spec fn decimal_value(digits: Seq<char>) -> int
    decreases digits.len(),
{
    if digits.len() == 0 {
        0
    } else {
        10 * decimal_value(digits.drop_last()) + (digits.last() as int - '0' as int)
    }
}

/// Whether text is a number in decimal digits: it holds digits alone, begins with no
/// zero unless it is one digit, and stands for the number.
pub open spec fn tells_number(digits: Seq<char>, number: int) -> bool {
    &&& digits.len() > 0
    &&& forall|i: int| 0 <= i < digits.len() ==> '0' <= #[trigger] digits[i] <= '9'
    &&& digits.len() > 1 ==> digits[0] != '0'
    &&& decimal_value(digits) == number
}

pub(crate) proof fn lemma_decimal_tells_number(number: nat)
    ensures
        tells_number(crate::text::decimal(number), number as int),
        number > 0 ==> crate::text::decimal(number)[0] != '0',
    decreases number,
{
    let digits = crate::text::decimal(number);
    if number < 10 {
        assert(digits.drop_last() =~= Seq::<char>::empty());
        assert(decimal_value(digits.drop_last()) == 0);
    } else {
        lemma_decimal_tells_number(number / 10);
        assert(digits.drop_last() =~= crate::text::decimal(number / 10));
        assert(digits[0] == crate::text::decimal(number / 10)[0]);
        assert forall|i: int| 0 <= i < digits.len() implies '0' <= #[trigger] digits[i] <= '9' by {
            if i < digits.len() - 1 {
                assert(digits[i] == digits.drop_last()[i]);
            }
        }
    }
}

/// An error of the service is told by its status in decimal digits, its code and its
/// message.
pub proof fn law_errors_of_the_service_are_told(error: Error, text: String)
    requires
        call_ensures(Error::to_string, (&error,), text),
    ensures
        error matches Error::Api { status, code, message, .. } ==> exists|digits: Seq<char>| #[trigger]
            tells_number(digits, status as int) && text@ == "ttsai: HTTP "@ + digits + " ("@
                + option_debug(
                match code {
                    Some(held) => Some(held@),
                    None => None,
                },
            ) + "): "@ + message@,
        error matches Error::Api { code: None, .. } ==> option_debug(None) == "None"@,
{
    if let Error::Api { status, .. } = error {
        lemma_decimal_tells_number(status as nat);
    }
}

/// Any other error is told by what kind it is of and then in its own words.
pub proof fn law_other_errors_are_told(error: Error, text: String)
    requires
        call_ensures(Error::to_string, (&error,), text),
    ensures
        error matches Error::Timeout(detail) ==> text@ == "ttsai: timeout: "@ + detail@,
        error matches Error::JobFailed(detail) ==> text@ == "ttsai: job failed: "@ + detail@,
        error matches Error::Transport(carried) ==> exists|detail: String| #[trigger]
            to_string_from_display_ensures(&carried, detail) && text@ == "ttsai: transport error: "@
                + detail@,
        error matches Error::Json(carried) ==> exists|detail: String| #[trigger]
            to_string_from_display_ensures(&carried, detail) && text@ == "ttsai: json error: "@
                + detail@,
        error matches Error::Io(carried) ==> exists|detail: String| #[trigger]
            to_string_from_display_ensures(&carried, detail) && text@ == "ttsai: io error: "@
                + detail@,
{
}

/// An error from elsewhere is carried as it came, under its own kind.
pub proof fn law_errors_from_elsewhere_are_carried(
    transport: TransportError,
    json: JsonError,
    io: IoError,
    errors: (Error, Error, Error),
)
    requires
        call_ensures(<Error as From<TransportError>>::from, (transport,), errors.0),
        call_ensures(<Error as From<JsonError>>::from, (json,), errors.1),
        call_ensures(<Error as From<IoError>>::from, (io,), errors.2),
    ensures
        errors.0 == Error::Transport(transport),
        errors.1 == Error::Json(json),
        errors.2 == Error::Io(io),
{
}

} // verus!
