//! What is made of the outcomes of requests and of the bodies of answers.

use crate::client::Client;
use crate::error::Error;
use crate::json::{json_parse, members, Json, JsonValue};
use crate::promises::errors::{lemma_decimal_tells_number, tells_number};
use crate::reply::{connect_error, status_text, timeout_error};
use crate::reply::{read_answer, read_document, read_voices, reply_text, voices};
use crate::reply::{NextStep, Outcome};
use reqwest::Error as TransportError;
use serde_json::Value;
use vstd::arithmetic::power2::{lemma_pow2_unfold, pow2};
use vstd::prelude::*;
use vstd::utf8::encode_utf8;

verus! {

/// An answer to a JSON request leads to another try exactly if its status is from
/// 500 to 599 and the request may still be sent again. Otherwise its body is read,
/// as a reply if the status is from 200 to 299 and as an error of that very status
/// if it is not.
pub proof fn law_faults_of_the_service_are_tried_again(
    client: &Client,
    retries: u32,
    status: u16,
    next: (u32, NextStep),
)
    requires
        call_ensures(Client::json_request, (client, retries, Outcome::Answered { status }), next),
    ensures
        next.1 is SendAgain <==> 500 <= status <= 599 && retries < client@.max_retries,
        next.1 is SendAgain ==> next.0 == retries + 1,
        !(next.1 is SendAgain) ==> next.0 == retries,
        !(next.1 is SendAgain) && 200 <= status <= 299 ==> next.1 is ReadReply,
        !(next.1 is SendAgain) && !(200 <= status <= 299) ==> next.1 == (NextStep::ReadError {
            status,
        }),
{
}

/// An answer to a form is taken as an answer to a JSON request is.
pub proof fn law_answers_to_forms_are_taken_alike(
    client: &Client,
    retries: u32,
    status: u16,
    json: (u32, NextStep),
    form: (u32, NextStep),
)
    requires
        call_ensures(Client::json_request, (client, retries, Outcome::Answered { status }), json),
        call_ensures(Client::multipart_request, (client, retries, Outcome::Answered { status }), form),
    ensures
        form == json,
        form.1 is SendAgain <==> 500 <= status <= 599 && retries < client@.max_retries,
        form.1 is ReadReply <==> 200 <= status <= 299,
{
}

/// A JSON request that failed is sent again exactly if time ran out or no connection
/// could be made, and it may still be. It is given up with the very error that came,
/// at once where it may not be sent again, and otherwise after the wait of a try.
pub proof fn law_failed_requests_are_tried_again(
    client: &Client,
    retries: u32,
    error: TransportError,
    next: (u32, NextStep),
)
    requires
        call_ensures(Client::json_request, (client, retries, Outcome::Failed(error)), next),
    ensures
        next.1 is SendAgain <==> retries < client@.max_retries && (timeout_error(error)
            || connect_error(error)),
        retries < client@.max_retries ==> next.0 == retries + 1,
        retries < client@.max_retries && !(next.1 is SendAgain) ==> (next.1 matches NextStep::FailAfter {
            error: Error::Transport(carried),
            ..
        } && carried == error),
        retries >= client@.max_retries ==> next == (
            retries,
            NextStep::Fail(Error::Transport(error)),
        ),
{
}

/// A failed JSON request is judged by the two flags as it is by the error itself.
pub proof fn law_failures_are_judged_by_their_flags(
    client: &Client,
    retries: u32,
    error: TransportError,
    timed_out: bool,
    not_connected: bool,
    next: (u32, NextStep),
)
    requires
        call_ensures(
            Client::after_failure,
            (client, retries, error, timed_out, not_connected),
            next,
        ),
    ensures
        next.1 is SendAgain <==> retries < client@.max_retries && (timed_out || not_connected),
        retries < client@.max_retries ==> next.0 == retries + 1,
        retries < client@.max_retries && !(next.1 is SendAgain) ==> (next.1 matches NextStep::FailAfter {
            error: Error::Transport(carried),
            ..
        } && carried == error),
        retries >= client@.max_retries ==> next == (
            retries,
            NextStep::Fail(Error::Transport(error)),
        ),
{
}

/// A form that failed is sent again exactly if no connection could be made and it
/// may still be; otherwise it is given up at once with the very error that came.
pub proof fn law_failed_forms_are_tried_again(
    client: &Client,
    retries: u32,
    error: TransportError,
    next: (u32, NextStep),
)
    requires
        call_ensures(Client::multipart_request, (client, retries, Outcome::Failed(error)), next),
    ensures
        next.1 is SendAgain <==> retries < client@.max_retries && connect_error(error),
        next.1 is SendAgain ==> next.0 == retries + 1,
        !(next.1 is SendAgain) ==> next == (retries, NextStep::Fail(Error::Transport(error))),
{
}

/// A failed form is judged by the flag as it is by the error itself.
pub proof fn law_failed_forms_are_judged_by_their_flag(
    client: &Client,
    retries: u32,
    error: TransportError,
    not_connected: bool,
    next: (u32, NextStep),
)
    requires
        call_ensures(Client::after_form_failure, (client, retries, error, not_connected), next),
    ensures
        next.1 is SendAgain <==> retries < client@.max_retries && not_connected,
        next.1 is SendAgain ==> next.0 == retries + 1,
        !(next.1 is SendAgain) ==> next == (retries, NextStep::Fail(Error::Transport(error))),
{
}

/// The wait that a step asks for, where it asks for one.
pub open spec fn wait_of(step: NextStep) -> Option<u64> {
    match step {
        NextStep::SendAgain { after_secs } => Some(after_secs),
        NextStep::FailAfter { after_secs, .. } => Some(after_secs),
        _ => None,
    }
}

/// The first wait of a request is two seconds, and the wait before the n-th time
/// that it is sent again is two to the power of n seconds, whatever it is for. A
/// wait is asked for exactly if that was foretold of a JSON request, and of a form
/// only then.
pub proof fn law_waits_are_powers_of_two(
    client: &Client,
    retries: u32,
    outcome: Outcome,
    foretold: bool,
    json: (u32, NextStep),
    form: (u32, NextStep),
)
    requires
        retries < 63,
        call_ensures(Client::waits_after, (client, retries, &outcome), foretold),
        call_ensures(Client::json_request, (client, retries, outcome), json),
        call_ensures(Client::multipart_request, (client, retries, outcome), form),
    ensures
        foretold <==> wait_of(json.1) is Some,
        wait_of(form.1) is Some ==> foretold,
        wait_of(json.1) matches Some(secs) ==> secs == pow2((retries + 1) as nat),
        wait_of(form.1) matches Some(secs) ==> secs == pow2((retries + 1) as nat),
        retries == 0 ==> (wait_of(json.1) matches Some(secs) ==> secs == 2),
        retries == 0 ==> (wait_of(form.1) matches Some(secs) ==> secs == 2),
{
    vstd::arithmetic::power2::lemma2_to64();
    vstd::bits::lemma_u64_pow2_no_overflow((retries + 1) as nat);
}

/// A wait is foretold exactly of a request that may be sent again and that failed or
/// met a fault of the service.
pub proof fn law_waits_are_foretold(client: &Client, retries: u32, outcome: Outcome, foretold: bool)
    requires
        call_ensures(Client::waits_after, (client, retries, &outcome), foretold),
    ensures
        foretold <==> retries < client@.max_retries && (match outcome {
            Outcome::Failed(_) => true,
            Outcome::Answered { status } => 500 <= status <= 599,
        }),
{
}

/// Each wait of a request is twice the wait before it.
pub proof fn law_waits_double(
    client: &Client,
    retries: u32,
    outcomes: (Outcome, Outcome),
    first: (u32, NextStep),
    second: (u32, NextStep),
)
    requires
        retries < 62,
        call_ensures(Client::json_request, (client, retries, outcomes.0), first),
        call_ensures(Client::json_request, (client, first.0, outcomes.1), second),
        first.1 is SendAgain,
        wait_of(second.1) is Some,
    ensures
        wait_of(second.1)->0 == 2 * wait_of(first.1)->0,
{
    vstd::bits::lemma_u64_pow2_no_overflow((retries + 1) as nat);
    vstd::bits::lemma_u64_pow2_no_overflow((retries + 2) as nat);
    lemma_pow2_unfold((retries + 2) as nat);
}

/// The wait after a failure is the one that the next try would have.
pub proof fn law_failures_wait_as_faults_do(
    client: &Client,
    retries: u32,
    error: TransportError,
    flags: (bool, bool),
    json: (u32, NextStep),
    form: (u32, NextStep),
)
    requires
        retries < 63,
        call_ensures(Client::after_failure, (client, retries, error, flags.0, flags.1), json),
        call_ensures(Client::after_form_failure, (client, retries, error, flags.1), form),
    ensures
        wait_of(json.1) matches Some(secs) ==> secs == pow2((retries + 1) as nat),
        wait_of(form.1) matches Some(secs) ==> secs == pow2((retries + 1) as nat),
{
    vstd::bits::lemma_u64_pow2_no_overflow((retries + 1) as nat);
}

/// A download is read exactly if its status is from 200 to 299. It is never tried
/// again: a failure is handed on as it came, and any other answer is an error of
/// that status that says so.
pub proof fn law_downloads_are_read_or_fail(client: &Client, outcome: Outcome, step: NextStep)
    requires
        call_ensures(Client::fetch_url, (client, outcome), step),
    ensures
        match outcome {
            Outcome::Failed(error) => step == NextStep::Fail(Error::Transport(error)),
            Outcome::Answered { status } => {
                &&& step is ReadReply <==> 200 <= status <= 299
                &&& !(step is ReadReply) ==> (step matches NextStep::Fail(
                    Error::Api { status: told, code, message, body },
                ) && told == status && code is None && body is None && message@
                    == "download failed: HTTP "@ + status_text(status) && exists|digits: Seq<char>|
                    #[trigger] tells_number(digits, status as int) && (digits
                        + " "@).is_prefix_of(status_text(status)))
            },
        },
{
    if let Outcome::Answered { status } = outcome {
        lemma_decimal_tells_number(status as nat);
    }
}

/// A reply is its body, byte for byte, and the body of an error is never taken for a
/// reply.
pub proof fn law_a_reply_is_its_body(step: NextStep, bytes: Vec<u8>, result: Result<Vec<u8>, Error>)
    requires
        step is ReadReply || step is ReadError,
        call_ensures(read_answer, (step, bytes), result),
    ensures
        step is ReadReply <==> result is Ok,
        result matches Ok(reply) ==> reply@ == bytes@,
        step matches NextStep::ReadError { status } ==> (result matches Err(Error::Api {
            status: told,
            ..
        }) && told == status),
{
}

/// The text of a reply is the reply, and that of an empty one is `null`.
pub proof fn law_only_an_empty_reply_is_filled_in(bytes: Vec<u8>, text: Vec<u8>)
    requires
        call_ensures(reply_text, (bytes,), text),
    ensures
        bytes@.len() > 0 ==> text@ == bytes@,
        bytes@.len() == 0 ==> text@ == encode_utf8("null"@),
{
}

/// A reply that is not empty is read as the document that it is, or fails with the
/// very error that reading it gives. An empty one is null.
pub proof fn law_a_document_is_what_the_reply_holds(
    bytes: Vec<u8>,
    document: Result<JsonValue, Error>,
)
    requires
        call_ensures(read_document, (bytes,), document),
    ensures
        bytes@.len() == 0 ==> (document matches Ok(value) && value is Null),
        bytes@.len() > 0 ==> (match json_parse(bytes@) {
            Ok(json) => document matches Ok(value) && value@ == json,
            Err(error) => document matches Err(Error::Json(carried)) && carried == error,
        }),
{
}

/// Where a document has an array under `voices`, the voices are its items: as many,
/// and at each place the same. Otherwise there are none.
pub proof fn law_every_voice_is_listed(catalog: &JsonValue, listed: Vec<Value>)
    requires
        call_ensures(voices, (catalog,), listed),
    ensures
        catalog matches JsonValue::Object(object) ==> {
            &&& members(*object).contains_key("voices"@) ==> (members(*object)["voices"@] matches Json::Array(
                items,
            ) ==> listed@.len() == items.len() && forall|i: int|
                0 <= i < items.len() ==> #[trigger] listed@[i] == items[i])
            &&& members(*object).contains_key("voices"@) && !(members(*object)["voices"@] is Array)
                ==> listed@.len() == 0
            &&& !members(*object).contains_key("voices"@) ==> listed@.len() == 0
        },
        !(catalog is Object) ==> listed@.len() == 0,
{
}

/// The voices of a reply are those of the document that it is, all of them in their
/// order. A reply that is no document fails with the error that reading it gives.
pub proof fn law_every_voice_of_a_reply_is_listed(
    bytes: Vec<u8>,
    listed: Result<Vec<Value>, Error>,
)
    requires
        bytes@.len() > 0,
        call_ensures(read_voices, (bytes,), listed),
    ensures
        json_parse(bytes@) matches Err(error) ==> (listed matches Err(Error::Json(carried))
            && carried == error),
        json_parse(bytes@) is Ok ==> listed is Ok,
        json_parse(bytes@) matches Ok(Json::Object(object)) ==> {
            &&& members(object).contains_key("voices"@) ==> (members(object)["voices"@] matches Json::Array(
                items,
            ) ==> listed->Ok_0@.len() == items.len() && forall|i: int|
                0 <= i < items.len() ==> #[trigger] listed->Ok_0@[i] == items[i])
            &&& members(object).contains_key("voices"@) && !(members(object)["voices"@] is Array)
                ==> listed->Ok_0@.len() == 0
            &&& !members(object).contains_key("voices"@) ==> listed->Ok_0@.len() == 0
        },
        json_parse(bytes@) matches Ok(json) ==> (!(json is Object) ==> listed->Ok_0@.len() == 0),
{
}

/// An empty reply lists no voices, and is no error.
pub proof fn law_an_empty_reply_lists_no_voices(bytes: Vec<u8>, listed: Result<Vec<Value>, Error>)
    requires
        bytes@.len() == 0,
        call_ensures(read_voices, (bytes,), listed),
    ensures
        listed matches Ok(values) && values@.len() == 0,
{
}

/// The members of a document are those of the object that it is, each as it stands
/// there. What is no object has none.
pub proof fn law_members_are_got(document: &JsonValue, key: &str, found: Option<JsonValue>)
    requires
        call_ensures(JsonValue::get, (document, key), found),
    ensures
        document matches JsonValue::Object(object) ==> {
            &&& found is Some <==> members(*object).contains_key(key@)
            &&& found matches Some(value) ==> value@ == members(*object)[key@]
        },
        !(document is Object) ==> found is None,
{
}

/// A document is a text, an integer or an array only if that is what it is, and then
/// that very one.
pub proof fn law_documents_are_what_they_are(
    document: JsonValue,
    text: Option<&str>,
    integer: Option<u64>,
    items: Option<Vec<Value>>,
)
    requires
        call_ensures(JsonValue::as_str, (&document,), text),
        call_ensures(JsonValue::as_u64, (&document,), integer),
        call_ensures(JsonValue::into_array, (document,), items),
    ensures
        text is Some <==> document is String,
        document matches JsonValue::String(held) ==> text->0@ == held@,
        document matches JsonValue::Number(number) ==> integer == crate::json::number_u64(number),
        !(document is Number) ==> integer is None,
        items is Some <==> document is Array,
        document matches JsonValue::Array(held) ==> items->0@ == held@,
{
}

/// Each kind of document stands for the same kind of value, with the same content.
pub proof fn law_documents_stand_for_themselves(document: JsonValue)
    ensures
        document is Null <==> document@ is Null,
        document matches JsonValue::Bool(held) ==> document@ == Json::Bool(held),
        document matches JsonValue::Number(held) ==> document@ == Json::Number(held),
        document matches JsonValue::String(held) ==> document@ == Json::String(held@),
        document matches JsonValue::Array(held) ==> document@ == Json::Array(held@),
        document matches JsonValue::Object(held) ==> document@ == Json::Object(held),
{
}

} // verus!
