//! What is sent.

use crate::client::Client;
use crate::encoding::form_encode;
use crate::header::header_fields;
use crate::json::{members, Json};
use crate::options::{CloneVoiceOptions, GenerateOptions, Speed};
use crate::pronunciations::Pronunciations;
use crate::request::{DownloadRequest, FormField, FormRequest, JsonRequest, Method};
use reqwest::header::HeaderMap;
use reqwest::header::HeaderValue;
use vstd::prelude::*;
use vstd::utf8::encode_utf8;

verus! {

/// Whether header fields are the key of a client behind the word `Bearer` and its
/// user agent, each once, and nothing else.
pub open spec fn carries_key_and_agent(headers: HeaderMap<HeaderValue>, client: &Client) -> bool {
    &&& header_fields(headers).contains_key("authorization"@)
    &&& header_fields(headers)["authorization"@].len() == 1
    &&& header_fields(headers)["authorization"@][0] == encode_utf8("Bearer "@ + client@.api_key)
    &&& header_fields(headers).contains_key("user-agent"@)
    &&& header_fields(headers)["user-agent"@].len() == 1
    &&& header_fields(headers)["user-agent"@][0] == encode_utf8(client@.user_agent)
    &&& forall|name: Seq<char>| #[trigger]
        header_fields(headers).contains_key(name) ==> name == "authorization"@ || name
            == "user-agent"@
}

proof fn lemma_field_names_differ()
    ensures
        "authorization"@ != "user-agent"@,
{
    reveal_strlit("authorization");
    reveal_strlit("user-agent");
    assert("authorization"@.len() == 13 && "user-agent"@.len() == 10);
}

/// The header fields of a client are its key and its user agent.
pub proof fn law_headers_are_key_and_agent(client: &Client, headers: HeaderMap<HeaderValue>)
    requires
        call_ensures(Client::headers, (client,), headers),
    ensures
        carries_key_and_agent(headers, client),
{
    lemma_field_names_differ();
}

/// A client is ready exactly if neither its key nor its user agent holds a control
/// character, the tab excepted.
pub proof fn law_control_characters_are_not_sent(client: &Client, ready: bool)
    requires
        call_ensures(Client::headers_ready, (client,), ready),
    ensures
        ready <==> {
            &&& forall|i: int|
                0 <= i < client@.api_key.len() ==> {
                    let c = #[trigger] client@.api_key[i] as u32;
                    c == 9 || c >= 32 && c != 127
                }
            &&& forall|i: int|
                0 <= i < client@.user_agent.len() ==> {
                    let c = #[trigger] client@.user_agent[i] as u32;
                    c == 9 || c >= 32 && c != 127
                }
        },
{
}

/// A speech request is posted to the speech path of the service, with a body and the
/// client's key and user agent.
pub proof fn law_speech_is_posted(client: &Client, opts: GenerateOptions, request: JsonRequest)
    requires
        call_ensures(Client::generate_async, (client, opts), request),
    ensures
        request.method is Post,
        request.url@ == client@.base_url + "/v1/tts/"@,
        carries_key_and_agent(request.headers, client),
        request.body is Some,
{
    lemma_field_names_differ();
}

/// What was passed through is in the body of a speech request under its own keys, each
/// member as it was given, whatever the named options are.
pub proof fn law_what_is_passed_through_arrives(
    client: &Client,
    opts: GenerateOptions,
    request: JsonRequest,
    key: Seq<char>,
)
    requires
        call_ensures(Client::generate_async, (client, opts), request),
        members(opts.extra).contains_key(key),
    ensures
        members(request.body->0).contains_key(key),
        members(request.body->0)[key] == members(opts.extra)[key],
{
}

/// Under a key that nothing was passed through for, the body of a speech request holds
/// the option of that name: the text always; voice and model as asked for, or the
/// default ones; format, language and instructions exactly if asked for; and nothing
/// under any other key.
pub proof fn law_named_options_arrive(
    client: &Client,
    opts: GenerateOptions,
    request: JsonRequest,
    key: Seq<char>,
)
    requires
        call_ensures(Client::generate_async, (client, opts), request),
        !members(opts.extra).contains_key(key),
    ensures
        ({
            let body = members(request.body->0);
            &&& key == "text"@ ==> body.contains_key(key) && body[key] == Json::String(opts.text@)
            &&& key == "voice"@ ==> body.contains_key(key)
            &&& key == "voice"@ && opts.voice is Some ==> body[key] == Json::String(opts.voice->0@)
            &&& key == "voice"@ && opts.voice is None ==> body[key] == Json::String("af_bella"@)
            &&& key == "model"@ ==> body.contains_key(key)
            &&& key == "model"@ && opts.model is Some ==> body[key] == Json::String(opts.model->0@)
            &&& key == "model"@ && opts.model is None ==> body[key] == Json::String("kokoro"@)
            &&& key == "format"@ ==> (body.contains_key(key) <==> opts.format is Some)
            &&& key == "format"@ && opts.format is Some ==> body[key] == Json::String(
                opts.format->0@,
            )
            &&& key == "language"@ ==> (body.contains_key(key) <==> opts.language is Some)
            &&& key == "language"@ && opts.language is Some ==> body[key] == Json::String(
                opts.language->0@,
            )
            &&& key == "instructions"@ ==> (body.contains_key(key) <==> opts.instructions is Some)
            &&& key == "instructions"@ && opts.instructions is Some ==> body[key] == Json::String(
                opts.instructions->0@,
            )
            &&& body.contains_key(key) ==> key == "text"@ || key == "voice"@ || key == "model"@
                || key == "format"@ || key == "language"@ || key == "speed"@ || key
                == "instructions"@ || key == "pronunciations"@
        }),
{
    crate::laws::lemma_named_keys_differ();
}

/// The speed is sent exactly if one was asked for: as its number, or as null where
/// JSON has no number for it.
pub proof fn law_the_speed_arrives(client: &Client, opts: GenerateOptions, request: JsonRequest)
    requires
        call_ensures(Client::generate_async, (client, opts), request),
        !members(opts.extra).contains_key("speed"@),
    ensures
        members(request.body->0).contains_key("speed"@) <==> opts.speed is Some,
        opts.speed matches Some(Speed::Finite(number)) ==> members(request.body->0)["speed"@]
            == Json::Number(number),
        opts.speed matches Some(Speed::NotFinite) ==> members(request.body->0)["speed"@] is Null,
{
    crate::laws::lemma_named_keys_differ();
}

/// Pronunciations are sent exactly if there is a word in them: as an object that has
/// the words for its keys, and under each of them the string that replaces it.
pub proof fn law_pronunciations_arrive(client: &Client, opts: GenerateOptions, request: JsonRequest)
    requires
        call_ensures(Client::generate_async, (client, opts), request),
        !members(opts.extra).contains_key("pronunciations"@),
    ensures
        members(request.body->0).contains_key("pronunciations"@) <==> (opts.pronunciations is Some
            && exists|word: Seq<char>| #[trigger] opts.pronunciations->0@.contains_key(word)),
        members(request.body->0).contains_key("pronunciations"@) ==> (members(
            request.body->0,
        )["pronunciations"@] matches Json::Object(object) && forall|word: Seq<char>|
            {
                &&& #[trigger] members(object).contains_key(word)
                    <==> opts.pronunciations->0@.contains_key(word)
                &&& members(object).contains_key(word) ==> members(object)[word] == Json::String(
                    opts.pronunciations->0@[word],
                )
            }),
{
    crate::laws::lemma_named_keys_differ();
    if let Some(words) = opts.pronunciations {
        if forall|word: Seq<char>| !(#[trigger] words@.contains_key(word)) {
            assert(words@ =~= Map::empty());
        }
    }
}

/// There are no words to begin with, and words are empty exactly if there is none.
/// A copy has the same words and replacements.
pub proof fn law_words_are_counted_and_copied(
    fresh: Pronunciations,
    words: &Pronunciations,
    empty: bool,
    copy: Pronunciations,
)
    requires
        call_ensures(Pronunciations::new, (), fresh),
        call_ensures(Pronunciations::is_empty, (words,), empty),
        call_ensures(<Pronunciations as Clone>::clone, (words,), copy),
    ensures
        forall|word: Seq<char>| !(#[trigger] fresh@.contains_key(word)),
        empty <==> forall|word: Seq<char>| !(#[trigger] words@.contains_key(word)),
        copy@ == words@,
{
    if forall|word: Seq<char>| !(#[trigger] words@.contains_key(word)) {
        assert(words@ =~= Map::empty());
    }
}

/// A word that was put in is replaced by what was given last, and no other word is
/// touched.
pub proof fn law_a_word_is_replaced_as_told_last(
    words: &mut Pronunciations,
    word: String,
    replacement: String,
    other: Seq<char>,
)
    requires
        call_ensures(Pronunciations::insert, (words, word, replacement), ()),
    ensures
        final(words)@.contains_key(word@),
        final(words)@[word@] == replacement@,
        other != word@ ==> (final(words)@.contains_key(other) <==> old(words)@.contains_key(other)),
        other != word@ && old(words)@.contains_key(other) ==> final(words)@[other] == old(
            words,
        )@[other],
{
}

/// A job is looked at under the results path, by its encoded uuid, with nothing but
/// the client's key and user agent.
pub proof fn law_a_job_is_looked_at_by_its_uuid(
    client: &Client,
    uuid: &str,
    encoded: String,
    request: JsonRequest,
)
    requires
        call_ensures(form_encode, (uuid,), encoded),
        call_ensures(Client::poll_request, (client, uuid), request),
    ensures
        request.method is Get,
        request.url@ == client@.base_url + ("/v1/speech/results/?uuid="@ + encoded@),
        carries_key_and_agent(request.headers, client),
        request.body is None,
{
    lemma_field_names_differ();
}

/// Subtitles are asked for by the encoded uuid of the job and the encoded format.
pub proof fn law_subtitles_are_asked_for(
    client: &Client,
    uuid: &str,
    format: &str,
    encoded: (String, String),
    request: JsonRequest,
)
    requires
        call_ensures(form_encode, (uuid,), encoded.0),
        call_ensures(form_encode, (format,), encoded.1),
        call_ensures(Client::subtitles, (client, uuid, format), request),
    ensures
        request.method is Get,
        request.url@ == client@.base_url + ("/v1/speech/subtitles/?uuid="@ + encoded.0@
            + "&format="@ + encoded.1@),
        carries_key_and_agent(request.headers, client),
        request.body is None,
{
    lemma_field_names_differ();
}

/// The voice catalog is asked for with a filter for the model exactly if one is given,
/// and for the language exactly if one is given: a question mark before the first
/// filter, and an ampersand between the two.
pub proof fn law_voices_are_asked_for(
    client: &Client,
    model: Option<&str>,
    language: Option<&str>,
    encoded: (String, String),
    request: JsonRequest,
)
    requires
        model matches Some(text) ==> call_ensures(form_encode, (text,), encoded.0),
        language matches Some(text) ==> call_ensures(form_encode, (text,), encoded.1),
        call_ensures(Client::list_voices, (client, model, language), request),
    ensures
        request.method is Get,
        model is None && language is None ==> request.url@ == client@.base_url + "/v1/voices/"@,
        model is Some && language is None ==> request.url@ == client@.base_url
            + "/v1/voices/?model="@ + encoded.0@,
        model is None && language is Some ==> request.url@ == client@.base_url
            + "/v1/voices/?language="@ + encoded.1@,
        model is Some && language is Some ==> request.url@ == client@.base_url
            + "/v1/voices/?model="@ + encoded.0@ + "&language="@ + encoded.1@,
        carries_key_and_agent(request.headers, client),
        request.body is None,
{
    lemma_field_names_differ();
    reveal_strlit("/v1/voices/");
    reveal_strlit("?");
    reveal_strlit("&");
    reveal_strlit("model=");
    reveal_strlit("language=");
    reveal_strlit("&language=");
    reveal_strlit("/v1/voices/?model=");
    reveal_strlit("/v1/voices/?language=");
    assert("/v1/voices/"@ + "?"@ + "model="@ =~= "/v1/voices/?model="@);
    assert("/v1/voices/"@ + "?"@ + "language="@ =~= "/v1/voices/?language="@);
    assert("&"@ + "language="@ =~= "&language="@);
    if model is Some && language is None {
        assert(request.url@ =~= client@.base_url + "/v1/voices/?model="@ + encoded.0@);
    }
    if model is None && language is Some {
        assert(request.url@ =~= client@.base_url + "/v1/voices/?language="@ + encoded.1@);
    }
    if model is Some && language is Some {
        assert(request.url@ =~= client@.base_url + "/v1/voices/?model="@ + encoded.0@
            + "&language="@ + encoded.1@);
    }
}

/// The models are asked for under their path.
pub proof fn law_models_are_asked_for(client: &Client, request: JsonRequest)
    requires
        call_ensures(Client::list_models, (client,), request),
    ensures
        request.method is Get,
        request.url@ == client@.base_url + "/v1/speech/models/"@,
        carries_key_and_agent(request.headers, client),
        request.body is None,
{
    lemma_field_names_differ();
}

/// A download is asked for at the URL as it is, with no header fields.
pub proof fn law_a_download_is_asked_for(client: &Client, url: &str, request: DownloadRequest)
    requires
        call_ensures(Client::download_request, (client, url), request),
    ensures
        request.method is Get,
        request.url@ == url@,
        forall|name: Seq<char>| !(#[trigger] header_fields(request.headers).contains_key(name)),
{
}

/// Whether a field of a form is this text under this name.
pub open spec fn is_text(field: FormField, name: Seq<char>, text: Seq<char>) -> bool {
    field matches FormField::Text { name: n, text: t } && n@ == name && t@ == text
}

/// Whether a field of a form is a file of this name and content under this name.
pub open spec fn is_file(
    field: FormField,
    name: Seq<char>,
    file_name: Seq<char>,
    content: Seq<u8>,
) -> bool {
    field matches FormField::File { name: n, file_name: f, bytes } && n@ == name && f@ == file_name
        && bytes@ == content
}

/// The fields of a form are what their views stand for.
proof fn lemma_parts(fields: Seq<FormField>, i: int)
    requires
        0 <= i < fields.len(),
    ensures
        crate::request::form_parts(fields).len() == fields.len(),
        crate::request::form_parts(fields)[i] == fields[i]@,
{
}

/// Audio is posted to be written down in a form of two fields: the model, or the
/// default one, and the audio as a file of its name, or of a default one.
pub proof fn law_audio_is_posted_to_be_written_down(
    client: &Client,
    file_name: Option<String>,
    audio: Vec<u8>,
    model: Option<&str>,
    request: FormRequest,
)
    requires
        call_ensures(Client::transcribe, (client, file_name, audio, model), request),
    ensures
        request.method is Post,
        request.url@ == client@.base_url + "/v1/transcribe/"@,
        carries_key_and_agent(request.headers, client),
        request.fields@.len() == 2,
        model is Some ==> is_text(request.fields@[0], "model"@, model->0@),
        model is None ==> is_text(request.fields@[0], "model"@, "faster-whisper"@),
        file_name is Some ==> is_file(request.fields@[1], "file"@, file_name->0@, audio@),
        file_name is None ==> is_file(request.fields@[1], "file"@, "audio"@, audio@),
{
    lemma_field_names_differ();
    let parts = crate::request::form_parts(request.fields@);
    assert(parts.len() == 2);
    lemma_parts(request.fields@, 0);
    lemma_parts(request.fields@, 1);
}

/// A voice is cloned by a posted form: first the text, then the model, or the default
/// one, then the language exactly if there is one, then the boost exactly if there is
/// one, whatever the other options are, and last the reference audio as a file of its
/// name, or of a default one.
pub proof fn law_a_voice_is_posted_to_be_cloned(
    client: &Client,
    opts: CloneVoiceOptions,
    audio: Vec<u8>,
    request: FormRequest,
)
    requires
        call_ensures(Client::clone_voice, (client, opts, audio), request),
    ensures
        request.method is Post,
        request.url@ == client@.base_url + "/v1/voice-clone/"@,
        carries_key_and_agent(request.headers, client),
        opts.language is None && opts.boost is None ==> request.fields@.len() == 3,
        opts.language is Some && opts.boost is None ==> request.fields@.len() == 4,
        opts.language is None && opts.boost is Some ==> request.fields@.len() == 4,
        opts.language is Some && opts.boost is Some ==> request.fields@.len() == 5,
        is_text(request.fields@[0], "text"@, opts.text@),
        opts.model is Some ==> is_text(request.fields@[1], "model"@, opts.model->0@),
        opts.model is None ==> is_text(request.fields@[1], "model"@, "chatterbox"@),
        opts.language is Some ==> is_text(request.fields@[2], "language"@, opts.language->0@),
        opts.boost is Some && opts.language is None ==> is_text(
            request.fields@[2],
            "boost"@,
            opts.boost->0@,
        ),
        opts.boost is Some && opts.language is Some ==> is_text(
            request.fields@[3],
            "boost"@,
            opts.boost->0@,
        ),
        opts.audio_file_name is Some ==> is_file(
            request.fields@.last(),
            "reference_audio"@,
            opts.audio_file_name->0@,
            audio@,
        ),
        opts.audio_file_name is None ==> is_file(
            request.fields@.last(),
            "reference_audio"@,
            "reference.wav"@,
            audio@,
        ),
{
    lemma_field_names_differ();
    let fields = request.fields@;
    let parts = crate::request::form_parts(fields);
    assert(parts.len() == fields.len());
    assert(fields.len() >= 3);
    lemma_parts(fields, 0);
    lemma_parts(fields, 1);
    lemma_parts(fields, 2);
    if fields.len() > 3 {
        lemma_parts(fields, 3);
    }
    lemma_parts(fields, fields.len() - 1);
}

/// The name of a field of a form.
pub open spec fn name_of(field: FormField) -> Seq<char> {
    match field {
        FormField::Text { name, .. } => name@,
        FormField::File { name, .. } => name@,
    }
}

/// Whatever the other options are, the form that clones a voice has a field `boost`
/// exactly if there is a boost, and a field `language` exactly if there is a language,
/// and each such field holds the text that was given.
pub proof fn law_boost_and_language_are_sent_if_given(
    client: &Client,
    opts: CloneVoiceOptions,
    audio: Vec<u8>,
    request: FormRequest,
)
    requires
        call_ensures(Client::clone_voice, (client, opts, audio), request),
    ensures
        opts.boost is Some <==> exists|i: int|
            0 <= i < request.fields@.len() && name_of(#[trigger] request.fields@[i]) == "boost"@,
        opts.language is Some <==> exists|i: int|
            0 <= i < request.fields@.len() && name_of(#[trigger] request.fields@[i]) == "language"@,
        forall|i: int|
            0 <= i < request.fields@.len() ==> (name_of(#[trigger] request.fields@[i]) == "boost"@
                ==> is_text(request.fields@[i], "boost"@, opts.boost->0@)),
        forall|i: int|
            0 <= i < request.fields@.len() ==> (name_of(#[trigger] request.fields@[i])
                == "language"@ ==> is_text(request.fields@[i], "language"@, opts.language->0@)),
{
    law_a_voice_is_posted_to_be_cloned(client, opts, audio, request);
    reveal_strlit("text");
    reveal_strlit("model");
    reveal_strlit("language");
    reveal_strlit("boost");
    reveal_strlit("reference_audio");
    assert("text"@.len() == 4 && "language"@.len() == 8 && "reference_audio"@.len() == 15);
    assert("model"@[0] == 'm' && "boost"@[0] == 'b' && "boost"@.len() == 5);
    let fields = request.fields@;
    assert forall|i: int| 0 <= i < fields.len() && i != 2 && i != 3 implies (#[trigger] name_of(
        fields[i],
    ) != "boost"@ && name_of(fields[i]) != "language"@) by {
        if i == fields.len() - 1 {
            assert(fields[i] == fields.last());
        }
    }
    let last = fields.last();
    assert(name_of(last) != "boost"@ && name_of(last) != "language"@);
    if opts.language is Some {
        assert(name_of(fields[2]) == "language"@);
    }
    if opts.boost is Some {
        let at: int = if opts.language is Some { 3 } else { 2 };
        assert(name_of(fields[at]) == "boost"@);
    }
}

/// Options that nothing was asked for in ask for nothing.
pub proof fn law_default_options_ask_for_nothing(
    speech: GenerateOptions,
    voice: CloneVoiceOptions,
)
    requires
        call_ensures(<GenerateOptions as Default>::default, (), speech),
        call_ensures(<CloneVoiceOptions as Default>::default, (), voice),
    ensures
        speech.text@.len() == 0,
        speech.voice is None && speech.model is None && speech.format is None && speech.language is None,
        speech.speed is None && speech.instructions is None && speech.pronunciations is None,
        forall|key: Seq<char>| !(#[trigger] members(speech.extra).contains_key(key)),
        voice.text@.len() == 0,
        voice.audio_file_name is None && voice.model is None && voice.language is None
            && voice.boost is None,
{
}

} // verus!
