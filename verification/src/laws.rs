//! What holds of the client as a whole.

use crate::client::Settings;
use crate::encoding::{form_encoded, form_safe};
use crate::encoding::{lemma_form_bytes_safe, lemma_form_encoded_injective};
use crate::error::Error;
use crate::header::header_fields;
use crate::json::{members, Json};
use crate::options::{CloneVoiceOptions, GenerateOptions, Job, JobResult};
use crate::pronunciations::text_members;
use crate::reply::{connect_error, timeout_error};
use crate::reply::{form_step, is_answer, is_api_error, is_fetch_step, json_step};
use crate::reply::{NextStep, Outcome};
use crate::request::{clone_parts, is_download, transcribe_parts, DownloadRequest, FormPart};
use crate::request::{is_speech_body, speed_json, text_or};
use crate::request::{results_path, subtitles_path, voices_path};
use crate::session::{is_generate_step, is_poll_step, GenerateEvent, GenerateStep, PollStep};
use crate::text::{ends_with_slash, without_trailing_slashes};
use crate::time::duration_nanos;
use serde_json::Map as ObjectMap;
use serde_json::Value;
use std::time::Duration;
use vstd::arithmetic::power2::{lemma_pow2_strictly_increases, lemma_pow2_unfold, pow2};
use vstd::prelude::*;
use vstd::utf8::{decode_utf8, encode_utf8, valid_utf8};

verus! {

/// Only slashes at the end of a base URL are taken away, and all of them are:
/// what is left is a prefix of it that ends with no slash, and nothing but
/// slashes follows.
pub proof fn law_only_trailing_slashes_go(url: Seq<char>)
    ensures
        without_trailing_slashes(url).is_prefix_of(url),
        without_trailing_slashes(url).len() > 0 ==> without_trailing_slashes(url).last() != '/',
        forall|i: int|
            without_trailing_slashes(url).len() <= i < url.len() ==> #[trigger] url[i] == '/',
    decreases url.len(),
{
    if ends_with_slash(url) {
        law_only_trailing_slashes_go(url.drop_last());
        let stripped = without_trailing_slashes(url);
        assert(stripped =~= url.take(stripped.len() as int)) by {
            assert(stripped =~= url.drop_last().take(stripped.len() as int));
        }
        assert forall|i: int| stripped.len() <= i < url.len() implies #[trigger] url[i] == '/' by {
            if i < url.len() - 1 {
                assert(url.drop_last()[i] == url[i]);
            }
        }
    }
}

/// A base URL that was set once can be set again without a change.
pub proof fn law_stripping_twice_is_stripping_once(url: Seq<char>)
    ensures
        without_trailing_slashes(without_trailing_slashes(url)) == without_trailing_slashes(url),
{
    law_only_trailing_slashes_go(url);
}

/// What is sent to the service.
pub enum Sent {
    Json,
    Form,
}

/// What to do after something was sent, and how often it was sent again once that
/// is done.
pub open spec fn next_step(sent: Sent, max_retries: u32, retries: u32, outcome: Outcome) -> (
    u32,
    NextStep,
) {
    match sent {
        Sent::Json => json_step(max_retries, retries, outcome),
        Sent::Form => form_step(max_retries, retries, outcome),
    }
}

/// How many requests are sent when the outcomes come one after the other, the
/// request having been sent again `retries` times before.
pub open spec fn requests_sent(sent: Sent, max_retries: u32, retries: u32, outcomes: Seq<Outcome>) -> nat
    decreases outcomes.len(),
{
    if outcomes.len() == 0 {
        0
    } else {
        let (again, step) = next_step(sent, max_retries, retries, outcomes[0]);
        if step is SendAgain {
            1 + requests_sent(sent, max_retries, again, outcomes.skip(1))
        } else {
            1
        }
    }
}

/// How many seconds are waited when the outcomes come one after the other.
pub open spec fn secs_waited(sent: Sent, max_retries: u32, retries: u32, outcomes: Seq<Outcome>) -> nat
    decreases outcomes.len(),
{
    if outcomes.len() == 0 {
        0
    } else {
        let (again, step) = next_step(sent, max_retries, retries, outcomes[0]);
        match step {
            NextStep::SendAgain { after_secs } => after_secs as nat + secs_waited(
                sent,
                max_retries,
                again,
                outcomes.skip(1),
            ),
            NextStep::FailAfter { after_secs, .. } => after_secs as nat,
            _ => 0,
        }
    }
}

/// The step that ends the sending when the outcomes come one after the other, or
/// `None` where they leave it open.
pub open spec fn last_step(sent: Sent, max_retries: u32, retries: u32, outcomes: Seq<Outcome>) -> Option<
    NextStep,
>
    decreases outcomes.len(),
{
    if outcomes.len() == 0 {
        None
    } else {
        let (again, step) = next_step(sent, max_retries, retries, outcomes[0]);
        if step is SendAgain {
            last_step(sent, max_retries, again, outcomes.skip(1))
        } else {
            Some(step)
        }
    }
}

/// Whether an outcome is worth another try: a fault of the service and a failed
/// connection are, and of a JSON request a timeout is too.
pub open spec fn worth_retrying(sent: Sent, outcome: Outcome) -> bool {
    match outcome {
        Outcome::Failed(error) => connect_error(error) || (sent is Json && timeout_error(error)),
        Outcome::Answered { status } => 500 <= status < 600,
    }
}

/// Whatever comes back, a request to the service is sent at most once more than it may be
/// sent again.
pub proof fn law_retries_are_bounded(sent: Sent, max_retries: u32, retries: u32, outcomes: Seq<Outcome>)
    requires
        retries <= max_retries,
    ensures
        requests_sent(sent, max_retries, retries, outcomes) <= max_retries - retries + 1,
    decreases outcomes.len(),
{
    if outcomes.len() > 0 {
        let (again, step) = next_step(sent, max_retries, retries, outcomes[0]);
        if step is SendAgain {
            law_retries_are_bounded(sent, max_retries, again, outcomes.skip(1));
        }
    }
}

/// The sending ends: as many outcomes as requests may be sent decide it.
pub proof fn law_sending_ends(sent: Sent, max_retries: u32, retries: u32, outcomes: Seq<Outcome>)
    requires
        retries <= max_retries,
        outcomes.len() > max_retries - retries,
    ensures
        last_step(sent, max_retries, retries, outcomes) is Some,
    decreases outcomes.len(),
{
    let (again, step) = next_step(sent, max_retries, retries, outcomes[0]);
    if step is SendAgain {
        law_sending_ends(sent, max_retries, again, outcomes.skip(1));
    }
}

/// Whatever comes back, the waits of a request to the service add up to less than twice the
/// longest that there may be.
pub proof fn law_waiting_is_bounded(sent: Sent, max_retries: u32, retries: u32, outcomes: Seq<Outcome>)
    requires
        retries <= max_retries < 64,
    ensures
        secs_waited(sent, max_retries, retries, outcomes) <= pow2((max_retries + 1) as nat) - pow2(
            (retries + 1) as nat,
        ),
    decreases outcomes.len(),
{
    if retries < max_retries {
        lemma_pow2_unfold((retries + 2) as nat);
        vstd::bits::lemma_u64_pow2_no_overflow((retries + 1) as nat);
        if retries + 2 < max_retries + 1 {
            lemma_pow2_strictly_increases((retries + 2) as nat, (max_retries + 1) as nat);
        }
        if outcomes.len() > 0 {
            let (again, step) = next_step(sent, max_retries, retries, outcomes[0]);
            if step is SendAgain {
                law_waiting_is_bounded(sent, max_retries, again, outcomes.skip(1));
            }
        }
    }
}

/// Outcomes that are worth another try are got over, as long as there are no more
/// of them than a request may be sent again.
pub proof fn law_passing_faults_are_got_over(
    sent: Sent,
    max_retries: u32,
    retries: u32,
    outcomes: Seq<Outcome>,
    faults: nat,
)
    requires
        faults < outcomes.len(),
        retries + faults <= max_retries,
        forall|i: int| 0 <= i < faults ==> worth_retrying(sent, #[trigger] outcomes[i]),
        outcomes[faults as int] matches Outcome::Answered { status } && 200 <= status < 300,
    ensures
        last_step(sent, max_retries, retries, outcomes) == Some(NextStep::ReadReply),
        requests_sent(sent, max_retries, retries, outcomes) == faults + 1,
    decreases faults,
{
    if faults > 0 {
        assert(worth_retrying(sent, outcomes[0]));
        assert(outcomes.skip(1)[faults - 1] == outcomes[faults as int]);
        assert forall|i: int| 0 <= i < faults - 1 implies worth_retrying(
            sent,
            #[trigger] outcomes.skip(1)[i],
        ) by {
            assert(outcomes.skip(1)[i] == outcomes[i + 1]);
        }
        law_passing_faults_are_got_over(
            sent,
            max_retries,
            (retries + 1) as u32,
            outcomes.skip(1),
            (faults - 1) as nat,
        );
    }
}

/// A fault of the service is reported only once the request has been sent as
/// often as it may be.
pub proof fn law_faults_are_reported_last(sent: Sent, max_retries: u32, retries: u32, outcomes: Seq<Outcome>)
    requires
        retries <= max_retries,
        last_step(sent, max_retries, retries, outcomes) matches Some(NextStep::ReadError { status })
            && 500 <= status < 600,
    ensures
        requests_sent(sent, max_retries, retries, outcomes) == max_retries - retries + 1,
    decreases outcomes.len(),
{
    if outcomes.len() > 0 {
        let (again, step) = next_step(sent, max_retries, retries, outcomes[0]);
        if step is SendAgain {
            law_faults_are_reported_last(sent, max_retries, again, outcomes.skip(1));
        }
    }
}

/// A reply is read only of an answer that tells of success, and an error only of
/// one that does not.
pub proof fn law_only_success_is_read(sent: Sent, max_retries: u32, retries: u32, outcome: Outcome)
    ensures
        next_step(sent, max_retries, retries, outcome).1 is ReadReply ==> (outcome matches Outcome::Answered {
            status,
        } && 200 <= status < 300),
        next_step(sent, max_retries, retries, outcome).1 matches NextStep::ReadError { status } ==> (outcome
            == Outcome::Answered { status } && !(200 <= status < 300)),
{
}

/// Something is sent again exactly if its outcome is worth that and it may be, and
/// it then counts as sent once more.
pub proof fn law_what_is_worth_it_is_sent_again(
    sent: Sent,
    max_retries: u32,
    retries: u32,
    outcome: Outcome,
)
    ensures
        next_step(sent, max_retries, retries, outcome).1 is SendAgain <==> (retries < max_retries
            && worth_retrying(sent, outcome)),
        next_step(sent, max_retries, retries, outcome).1 is SendAgain ==> next_step(
            sent,
            max_retries,
            retries,
            outcome,
        ).0 == retries + 1,
{
}

/// A form that is not sent again is given up or read at once, without a wait.
pub proof fn law_forms_are_given_up_at_once(max_retries: u32, retries: u32, outcome: Outcome)
    ensures
        !(form_step(max_retries, retries, outcome).1 is FailAfter),
        outcome matches Outcome::Failed(error) ==> (!(form_step(max_retries, retries, outcome).1
            is SendAgain) ==> form_step(max_retries, retries, outcome) == (
            retries,
            NextStep::Fail(Error::Transport(error)),
        )),
{
}

/// The answers that an error gives when it is asked what kind it is of: bad key,
/// too few credits, too many requests, bad request, fault of the service.
pub open spec fn kinds(error: Error) -> Seq<bool> {
    seq![
        error.http_status() == Some(401u16),
        error.http_status() == Some(402u16),
        error.http_status() == Some(429u16),
        error.http_status() == Some(400u16),
        error.http_status() matches Some(status) && status >= 500,
    ]
}

/// No error is of two kinds.
pub proof fn law_errors_are_of_one_kind(error: Error, i: int, j: int)
    requires
        0 <= i < j < 5,
    ensures
        !(kinds(error)[i] && kinds(error)[j]),
{
}

/// What kind a refusal is of follows from its status alone, whatever its body is.
pub proof fn law_the_status_decides(
    first: Error,
    second: Error,
    status: u16,
    bytes: (Seq<u8>, Seq<u8>),
    bodies: (Option<Json>, Option<Json>),
)
    requires
        is_api_error(first, status, bytes.0, bodies.0),
        is_api_error(second, status, bytes.1, bodies.1),
    ensures
        kinds(first) == kinds(second),
{
}

/// The credits that an error tells of are those in the document that the service
/// refused the request with.
pub proof fn law_credits_come_from_the_refusal(
    error: Error,
    status: u16,
    bytes: Seq<u8>,
    body: Option<Json>,
    name: Seq<char>,
)
    requires
        is_api_error(error, status, bytes, body),
    ensures
        error.body_integer(name) == (match body {
            Some(document) => match document.member(name) {
                Some(value) => value.unsigned(),
                None => None,
            },
            None => None,
        }),
{
}

/// A refusal says what the service said: the `message` of its document where that
/// is a string, or its `error` where there is no `message`.
pub proof fn law_the_stated_message_is_kept(
    error: Error,
    status: u16,
    bytes: Seq<u8>,
    document: Json,
    message: Seq<char>,
)
    requires
        is_api_error(error, status, bytes, Some(document)),
        document.member("message"@) == Some(Json::String(message)) || (document.member(
            "message"@,
        ) is None && document.member("error"@) == Some(Json::String(message))),
    ensures
        error.http_message() == Some(message),
{
}

/// A refusal without a document is told in the words that came with it.
pub proof fn law_a_plain_refusal_is_kept(error: Error, status: u16, bytes: Seq<u8>)
    requires
        is_api_error(error, status, bytes, None),
        valid_utf8(bytes),
    ensures
        error.http_code() is None,
        error.http_body() is None,
        error.http_message() == Some(decode_utf8(bytes)),
{
}

/// A member that was passed through reaches the service as it was given, whatever
/// the named options say under its key.
pub proof fn law_extra_members_win(opts: GenerateOptions, body: ObjectMap<String, Value>, key: Seq<char>)
    requires
        is_speech_body(opts, body),
        members(opts.extra).contains_key(key),
    ensures
        members(body).contains_pair(key, members(opts.extra)[key]),
{
}

/// A speech request always names a text, a voice and a model; voice and model are
/// the defaults where none was asked for.
pub proof fn law_text_voice_and_model_are_sent(opts: GenerateOptions, body: ObjectMap<String, Value>)
    requires
        is_speech_body(opts, body),
    ensures
        !members(opts.extra).contains_key("text"@) ==> members(body).contains_pair(
            "text"@,
            Json::String(opts.text@),
        ),
        !members(opts.extra).contains_key("voice"@) ==> members(body).contains_pair(
            "voice"@,
            Json::String(text_or(opts.voice, "af_bella"@)),
        ),
        !members(opts.extra).contains_key("model"@) ==> members(body).contains_pair(
            "model"@,
            Json::String(text_or(opts.model, "kokoro"@)),
        ),
{
    lemma_named_keys_differ();
}

/// The names of the options differ from one another.
pub(crate) proof fn lemma_named_keys_differ()
    ensures
        "text"@ != "voice"@,
        "text"@ != "model"@,
        "text"@ != "format"@,
        "text"@ != "language"@,
        "text"@ != "speed"@,
        "text"@ != "instructions"@,
        "text"@ != "pronunciations"@,
        "voice"@ != "model"@,
        "voice"@ != "format"@,
        "voice"@ != "language"@,
        "voice"@ != "speed"@,
        "voice"@ != "instructions"@,
        "voice"@ != "pronunciations"@,
        "model"@ != "format"@,
        "model"@ != "language"@,
        "model"@ != "speed"@,
        "model"@ != "instructions"@,
        "model"@ != "pronunciations"@,
        "format"@ != "language"@,
        "format"@ != "speed"@,
        "format"@ != "instructions"@,
        "format"@ != "pronunciations"@,
        "language"@ != "speed"@,
        "language"@ != "instructions"@,
        "language"@ != "pronunciations"@,
        "speed"@ != "instructions"@,
        "speed"@ != "pronunciations"@,
        "instructions"@ != "pronunciations"@,
{
    reveal_strlit("text");
    reveal_strlit("voice");
    reveal_strlit("model");
    reveal_strlit("format");
    reveal_strlit("language");
    reveal_strlit("speed");
    reveal_strlit("instructions");
    reveal_strlit("pronunciations");
    assert("voice"@[0] == 'v' && "model"@[0] == 'm' && "speed"@[0] == 's');
    assert("text"@.len() == 4 && "format"@.len() == 6 && "language"@.len() == 8);
    assert("instructions"@.len() == 12 && "pronunciations"@.len() == 14);
}

/// An option that was not asked for is not sent, and one that was is sent as it
/// was given.
pub proof fn law_options_are_sent_as_given(opts: GenerateOptions, body: ObjectMap<String, Value>)
    requires
        is_speech_body(opts, body),
    ensures
        !members(opts.extra).contains_key("format"@) ==> sent_as(body, "format"@, match opts.format {
            Some(text) => Some(Json::String(text@)),
            None => None,
        }),
        !members(opts.extra).contains_key("language"@) ==> sent_as(
            body,
            "language"@,
            match opts.language {
                Some(text) => Some(Json::String(text@)),
                None => None,
            },
        ),
        !members(opts.extra).contains_key("speed"@) ==> sent_as(body, "speed"@, match opts.speed {
            Some(speed) => Some(speed_json(speed)),
            None => None,
        }),
        !members(opts.extra).contains_key("instructions"@) ==> sent_as(
            body,
            "instructions"@,
            match opts.instructions {
                Some(text) => Some(Json::String(text@)),
                None => None,
            },
        ),
{
    lemma_named_keys_differ();
}

/// Whether `body` has `value` under `key`, or nothing where there is no value.
pub open spec fn sent_as(body: ObjectMap<String, Value>, key: Seq<char>, value: Option<Json>) -> bool {
    match value {
        Some(json) => members(body).contains_pair(key, json),
        None => !members(body).contains_key(key),
    }
}

/// Pronunciations are sent as an object of strings, and where there are none they
/// are not sent at all.
pub proof fn law_pronunciations_are_sent(opts: GenerateOptions, body: ObjectMap<String, Value>)
    requires
        is_speech_body(opts, body),
        !members(opts.extra).contains_key("pronunciations"@),
    ensures
        match opts.pronunciations {
            Some(words) if words@ != Map::<Seq<char>, Seq<char>>::empty() => {
                &&& members(body).contains_key("pronunciations"@)
                &&& members(body)["pronunciations"@] matches Json::Object(object)
                &&& members(object) == text_members(words@)
            },
            _ => !members(body).contains_key("pronunciations"@),
        },
{
    lemma_named_keys_differ();
}

/// A speech request holds nothing but the named options and what was passed
/// through.
pub proof fn law_nothing_else_is_sent(opts: GenerateOptions, body: ObjectMap<String, Value>, key: Seq<char>)
    requires
        is_speech_body(opts, body),
        members(body).contains_key(key),
        !members(opts.extra).contains_key(key),
    ensures
        key == "text"@ || key == "voice"@ || key == "model"@ || key == "format"@ || key
            == "language"@ || key == "speed"@ || key == "instructions"@ || key
            == "pronunciations"@,
{
}

/// The words that pronunciations are sent for are those that were given, each with
/// its own replacement.
pub proof fn law_every_word_is_sent(words: Map<Seq<char>, Seq<char>>, word: Seq<char>)
    ensures
        text_members(words).contains_key(word) <==> words.contains_key(word),
        words.contains_key(word) ==> text_members(words)[word] == Json::String(words[word]),
{
}

/// The last replacement that was given for a word is the one that is sent, and the
/// other words are sent as before.
pub proof fn law_the_last_replacement_is_sent(
    words: Map<Seq<char>, Seq<char>>,
    word: Seq<char>,
    replacement: Seq<char>,
)
    ensures
        text_members(words.insert(word, replacement)) == text_members(words).insert(
            word,
            Json::String(replacement),
        ),
{
    assert(text_members(words.insert(word, replacement)) =~= text_members(words).insert(
        word,
        Json::String(replacement),
    ));
}

/// Audio reaches the service byte for byte, as the last part of its form.
pub proof fn law_audio_is_sent_unchanged(
    file_name: Option<Seq<char>>,
    audio: Seq<u8>,
    model: Option<Seq<char>>,
    opts: CloneVoiceOptions,
)
    ensures
        transcribe_parts(file_name, audio, model).last() matches FormPart::File { bytes, .. } && bytes
            == audio,
        clone_parts(opts, audio).last() matches FormPart::File { bytes, .. } && bytes == audio,
{
}

/// Two jobs are never looked at under one path.
pub proof fn law_jobs_have_their_own_paths(first: Seq<char>, second: Seq<char>)
    requires
        results_path(first) == results_path(second),
    ensures
        first == second,
{
    let prefix = "/v1/speech/results/?uuid="@;
    assert(form_encoded(first) =~= results_path(first).skip(prefix.len() as int));
    assert(form_encoded(second) =~= results_path(second).skip(prefix.len() as int));
    lemma_form_encoded_injective(first, second);
}

/// Where two texts are cut at the first ampersand, and are the same as a whole,
/// their halves are the same.
proof fn lemma_cut_at_ampersand(a: Seq<char>, b: Seq<char>, s: Seq<char>, t: Seq<char>)
    requires
        a + seq!['&'] + s == b + seq!['&'] + t,
        !a.contains('&'),
        !b.contains('&'),
    ensures
        a == b,
        s == t,
{
    let x = a + seq!['&'] + s;
    let y = b + seq!['&'] + t;
    assert(x[a.len() as int] == '&');
    assert(y[b.len() as int] == '&');
    if a.len() < b.len() {
        assert(b[a.len() as int] == y[a.len() as int]);
        assert(b.contains('&'));
    }
    if b.len() < a.len() {
        assert(a[b.len() as int] == x[b.len() as int]);
        assert(a.contains('&'));
    }
    assert(a =~= x.take(a.len() as int));
    assert(b =~= y.take(b.len() as int));
    assert(s =~= x.skip((a.len() + 1) as int));
    assert(t =~= y.skip((b.len() + 1) as int));
}

/// An encoded text holds no ampersand.
proof fn lemma_no_ampersand(text: Seq<char>)
    ensures
        !form_encoded(text).contains('&'),
{
    lemma_form_bytes_safe(encode_utf8(text));
    if form_encoded(text).contains('&') {
        let i = choose|i: int| 0 <= i < form_encoded(text).len() && form_encoded(text)[i] == '&';
        assert(form_safe(form_encoded(text)[i]));
    }
}

/// Two requests for subtitles never share a path: it tells the job and the format
/// that were asked for.
pub proof fn law_subtitles_have_their_own_paths(
    uuids: (Seq<char>, Seq<char>),
    formats: (Seq<char>, Seq<char>),
)
    requires
        subtitles_path(uuids.0, formats.0) == subtitles_path(uuids.1, formats.1),
    ensures
        uuids.0 == uuids.1,
        formats.0 == formats.1,
{
    reveal_strlit("&format=");
    let prefix = "/v1/speech/subtitles/?uuid="@;
    let tail = "&format="@.skip(1);
    let x = subtitles_path(uuids.0, formats.0).skip(prefix.len() as int);
    let y = subtitles_path(uuids.1, formats.1).skip(prefix.len() as int);
    assert(x =~= form_encoded(uuids.0) + seq!['&'] + (tail + form_encoded(formats.0)));
    assert(y =~= form_encoded(uuids.1) + seq!['&'] + (tail + form_encoded(formats.1)));
    lemma_no_ampersand(uuids.0);
    lemma_no_ampersand(uuids.1);
    lemma_cut_at_ampersand(
        form_encoded(uuids.0),
        form_encoded(uuids.1),
        tail + form_encoded(formats.0),
        tail + form_encoded(formats.1),
    );
    assert(form_encoded(formats.0) =~= (tail + form_encoded(formats.0)).skip(tail.len() as int));
    assert(form_encoded(formats.1) =~= (tail + form_encoded(formats.1)).skip(tail.len() as int));
    lemma_form_encoded_injective(uuids.0, uuids.1);
    lemma_form_encoded_injective(formats.0, formats.1);
}

/// What follows the question mark in the path of the voice catalog.
spec fn voices_query(model: Option<Seq<char>>, language: Option<Seq<char>>) -> Seq<char> {
    match (model, language) {
        (None, None) => Seq::empty(),
        (Some(m), None) => "model="@ + form_encoded(m),
        (None, Some(l)) => "language="@ + form_encoded(l),
        (Some(m), Some(l)) => "model="@ + form_encoded(m) + seq!['&'] + ("language="@
            + form_encoded(l)),
    }
}

proof fn lemma_voices_path(model: Option<Seq<char>>, language: Option<Seq<char>>)
    ensures
        model is None && language is None ==> voices_path(model, language) == "/v1/voices/"@,
        model is Some || language is Some ==> voices_path(model, language) == "/v1/voices/"@ + seq![
            '?',
        ] + voices_query(model, language),
{
    reveal_strlit("?");
    reveal_strlit("&");
    assert(voices_path(model, language) =~= if model is None && language is None {
        "/v1/voices/"@
    } else {
        "/v1/voices/"@ + seq!['?'] + voices_query(model, language)
    });
}

/// Two requests for the voice catalog share a path only if they filter by the
/// same model and the same language.
pub proof fn law_voice_filters_have_their_own_paths(
    models: (Option<Seq<char>>, Option<Seq<char>>),
    languages: (Option<Seq<char>>, Option<Seq<char>>),
)
    requires
        voices_path(models.0, languages.0) == voices_path(models.1, languages.1),
    ensures
        models.0 == models.1,
        languages.0 == languages.1,
{
    lemma_voices_path(models.0, languages.0);
    lemma_voices_path(models.1, languages.1);
    let base = "/v1/voices/"@;
    let x = voices_path(models.0, languages.0);
    let y = voices_path(models.1, languages.1);
    let filtered0 = models.0 is Some || languages.0 is Some;
    let filtered1 = models.1 is Some || languages.1 is Some;
    assert(filtered0 ==> x.len() > base.len());
    assert(filtered1 ==> y.len() > base.len());
    assert(filtered0 == filtered1);
    if filtered0 {
        let p = voices_query(models.0, languages.0);
        let q = voices_query(models.1, languages.1);
        assert(p =~= x.skip((base.len() + 1) as int));
        assert(q =~= y.skip((base.len() + 1) as int));
        lemma_voices_queries(models, languages);
    }
}

proof fn lemma_voices_queries(
    models: (Option<Seq<char>>, Option<Seq<char>>),
    languages: (Option<Seq<char>>, Option<Seq<char>>),
)
    requires
        models.0 is Some || languages.0 is Some,
        models.1 is Some || languages.1 is Some,
        voices_query(models.0, languages.0) == voices_query(models.1, languages.1),
    ensures
        models.0 == models.1,
        languages.0 == languages.1,
{
    reveal_strlit("model=");
    reveal_strlit("language=");
    let p = voices_query(models.0, languages.0);
    let q = voices_query(models.1, languages.1);
    assert(p[0] == if models.0 is Some { 'm' } else { 'l' });
    assert(q[0] == if models.1 is Some { 'm' } else { 'l' });
    if models.0 is None {
        let l = languages.0->0;
        let k = languages.1->0;
        assert(form_encoded(l) =~= p.skip("language="@.len() as int));
        assert(form_encoded(k) =~= q.skip("language="@.len() as int));
        lemma_form_encoded_injective(l, k);
    } else {
        let m = models.0->0;
        let n = models.1->0;
        let head0 = "model="@ + form_encoded(m);
        let head1 = "model="@ + form_encoded(n);
        lemma_no_ampersand_after_model(m);
        lemma_no_ampersand_after_model(n);
        if languages.0 is Some && languages.1 is Some {
            let l = languages.0->0;
            let k = languages.1->0;
            let tail0 = "language="@ + form_encoded(l);
            let tail1 = "language="@ + form_encoded(k);
            lemma_cut_at_ampersand(head0, head1, tail0, tail1);
            assert(form_encoded(l) =~= tail0.skip("language="@.len() as int));
            assert(form_encoded(k) =~= tail1.skip("language="@.len() as int));
            lemma_form_encoded_injective(l, k);
        } else if languages.0 is Some {
            assert(p[head0.len() as int] == '&');
            assert(head1.contains('&'));
        } else if languages.1 is Some {
            assert(q[head1.len() as int] == '&');
            assert(head0.contains('&'));
        }
        assert(head0 == head1);
        assert(form_encoded(m) =~= head0.skip("model="@.len() as int));
        assert(form_encoded(n) =~= head1.skip("model="@.len() as int));
        lemma_form_encoded_injective(m, n);
    }
}

proof fn lemma_no_ampersand_after_model(model: Seq<char>)
    ensures
        !("model="@ + form_encoded(model)).contains('&'),
{
    reveal_strlit("model=");
    lemma_no_ampersand(model);
    let head = "model="@ + form_encoded(model);
    if head.contains('&') {
        let i = choose|i: int| 0 <= i < head.len() && head[i] == '&';
        if i >= 6 {
            assert(form_encoded(model)[i - 6] == '&');
        }
    }
}

/// A look at a job says "completed" exactly of a job that is, however late it is.
pub proof fn law_completed_jobs_are_taken(
    settings: Settings,
    uuid: Seq<char>,
    result: JobResult,
    elapsed: Duration,
    step: PollStep,
)
    requires
        is_poll_step(settings, uuid, result, elapsed, step),
    ensures
        step is Completed <==> result.status@ == "completed"@,
        step matches PollStep::Completed(taken) ==> taken == result,
{
}

/// Waiting for a job comes to an end: past the deadline no look leads to another.
pub proof fn law_waiting_for_a_job_ends(
    settings: Settings,
    uuid: Seq<char>,
    result: JobResult,
    elapsed: Duration,
    step: PollStep,
)
    requires
        is_poll_step(settings, uuid, result, elapsed, step),
    ensures
        step is Wait ==> duration_nanos(elapsed) <= duration_nanos(settings.poll_deadline),
        step is Wait ==> result.status@ != "completed"@ && result.status@ != "failed"@,
        step matches PollStep::Wait(pause) ==> pause == settings.poll_interval,
{
}

/// Only a job that is neither completed nor failed, and is past the deadline, is
/// given up as timed out.
pub proof fn law_only_late_jobs_time_out(
    settings: Settings,
    uuid: Seq<char>,
    result: JobResult,
    elapsed: Duration,
    step: PollStep,
)
    requires
        is_poll_step(settings, uuid, result, elapsed, step),
    ensures
        step matches PollStep::Failed(Error::Timeout(_)) <==> {
            &&& result.status@ != "completed"@
            &&& result.status@ != "failed"@
            &&& duration_nanos(elapsed) > duration_nanos(settings.poll_deadline)
        },
        step matches PollStep::Failed(Error::JobFailed(_)) <==> result.status@ == "failed"@,
{
    reveal_strlit("completed");
    reveal_strlit("failed");
    assert("completed"@.len() == 9 && "failed"@.len() == 6);
}

/// Audio that the service had at hand is downloaded without a look at the job.
pub proof fn law_audio_at_hand_is_fetched(job: Job, step: GenerateStep)
    requires
        job.status@ == "completed"@,
        job.result_url is Some,
        is_generate_step(GenerateEvent::Submitted(job), step),
    ensures
        job.result_url matches Some(url) && step == GenerateStep::Fetch(url),
{
}

/// A speech request that was accepted leads to its audio: either at once, or
/// through a look at its own job, whose completed result tells where the audio is.
pub proof fn law_speech_leads_to_audio(
    job: Job,
    result: JobResult,
    first: GenerateStep,
    second: GenerateStep,
)
    requires
        is_generate_step(GenerateEvent::Submitted(job), first),
        is_generate_step(GenerateEvent::Completed(result), second),
    ensures
        first is Fetch || first == GenerateStep::Poll(job.uuid),
        result.result_url matches Some(url) ==> second == GenerateStep::Fetch(url),
        result.result_url is None ==> second is Failed,
{
}

/// A look at a job, and how long after the first look was begun its answer came.
pub struct Look {
    pub result: JobResult,
    pub elapsed: Duration,
}

/// Whether a look ends the waiting for a job.
pub open spec fn decisive(settings: Settings, look: Look) -> bool {
    ||| look.result.status@ == "completed"@
    ||| look.result.status@ == "failed"@
    ||| duration_nanos(look.elapsed) > duration_nanos(settings.poll_deadline)
}

/// Whether `steps` are the steps after the looks that are made at the job `uuid`,
/// where `looks` is what can be seen one after the other: a look is made, and
/// after a wait another, as long as there is one.
pub open spec fn is_poll_run(
    settings: Settings,
    uuid: Seq<char>,
    looks: Seq<Look>,
    steps: Seq<PollStep>,
) -> bool {
    &&& steps.len() <= looks.len()
    &&& looks.len() > 0 ==> steps.len() > 0
    &&& forall|i: int|
        0 <= i < steps.len() ==> is_poll_step(
            settings,
            uuid,
            looks[i].result,
            looks[i].elapsed,
            #[trigger] steps[i],
        )
    &&& forall|i: int| 0 <= i < steps.len() - 1 ==> #[trigger] steps[i] is Wait
    &&& steps.len() < looks.len() ==> !(steps.last() is Wait)
}

/// The first decisive look at a job decides: every look before it leads to another
/// one, and no look is made after it.
pub proof fn law_the_first_decisive_look_decides(
    settings: Settings,
    uuid: Seq<char>,
    looks: Seq<Look>,
    steps: Seq<PollStep>,
    first: int,
)
    requires
        is_poll_run(settings, uuid, looks, steps),
        0 <= first < looks.len(),
        decisive(settings, looks[first]),
        forall|i: int| 0 <= i < first ==> !decisive(settings, #[trigger] looks[i]),
    ensures
        steps.len() == first + 1,
        !(steps.last() is Wait),
        is_poll_step(settings, uuid, looks[first].result, looks[first].elapsed, steps.last()),
{
    if steps.len() <= first {
        let last = steps.len() - 1;
        assert(!decisive(settings, looks[last]));
        assert(is_poll_step(settings, uuid, looks[last].result, looks[last].elapsed, steps[last]));
    }
    if steps.len() > first + 1 {
        assert(steps[first] is Wait);
    }
}

/// As long as no look at a job is decisive, every one leads to another.
pub proof fn law_an_open_job_is_looked_at_again(
    settings: Settings,
    uuid: Seq<char>,
    looks: Seq<Look>,
    steps: Seq<PollStep>,
)
    requires
        is_poll_run(settings, uuid, looks, steps),
        forall|i: int| 0 <= i < looks.len() ==> !decisive(settings, #[trigger] looks[i]),
    ensures
        steps.len() == looks.len(),
        forall|i: int|
            0 <= i < steps.len() ==> #[trigger] steps[i] == PollStep::Wait(settings.poll_interval),
{
    assert forall|i: int| 0 <= i < steps.len() implies #[trigger] steps[i] == PollStep::Wait(
        settings.poll_interval,
    ) by {
        assert(!decisive(settings, looks[i]));
    }
}

/// A job whose first decisive look shows it completed is completed, even if that
/// look comes past the deadline.
pub proof fn law_a_late_completion_still_counts(
    settings: Settings,
    uuid: Seq<char>,
    looks: Seq<Look>,
    steps: Seq<PollStep>,
    first: int,
)
    requires
        is_poll_run(settings, uuid, looks, steps),
        0 <= first < looks.len(),
        looks[first].result.status@ == "completed"@,
        forall|i: int| 0 <= i < first ==> !decisive(settings, #[trigger] looks[i]),
    ensures
        steps.len() == first + 1,
        steps.last() == PollStep::Completed(looks[first].result),
{
    law_the_first_decisive_look_decides(settings, uuid, looks, steps, first);
}

/// Clients that differ download alike: the host that keeps the audio is asked for
/// the URL itself, and learns neither the API key nor anything else of the client.
pub proof fn law_downloads_tell_nothing_of_the_client(
    url: Seq<char>,
    first: DownloadRequest,
    second: DownloadRequest,
)
    requires
        is_download(url, first),
        is_download(url, second),
    ensures
        first.method == second.method,
        first.url@ == url,
        second.url@ == url,
        header_fields(first.headers) == header_fields(second.headers),
        forall|name: Seq<char>| !(#[trigger] header_fields(first.headers).contains_key(name)),
{
}

/// A download that succeeds is the body of the answer, byte for byte.
pub proof fn law_a_download_is_the_answer(
    status: u16,
    step: NextStep,
    bytes: Seq<u8>,
    result: Result<Vec<u8>, Error>,
)
    requires
        200 <= status < 300,
        is_fetch_step(Outcome::Answered { status }, step),
        is_answer(step, bytes, result),
    ensures
        result matches Ok(audio) && audio@ == bytes,
{
}

} // verus!
