//! The requests that a client makes.

use crate::client::Client;
use crate::encoding::{form_encode, form_encoded};
use crate::header::{header_char_ok, header_fields, header_text_ok, no_fields};
use crate::header::{header_map_insert, header_map_new, header_value};
use crate::json::{entry_members, members, no_members, object_insert, object_into_entries, object_new};
use crate::json::{Json, JsonValue};
use crate::options::{CloneVoiceOptions, GenerateOptions, Speed};
use crate::pronunciations::text_members;
use crate::text::{joined, option_view};
use reqwest::header::HeaderMap;
use reqwest::header::HeaderValue;
use serde_json::Map as ObjectMap;
use serde_json::Value;
use vstd::prelude::*;
use vstd::utf8::encode_utf8;

verus! {

/// The method of a request.
#[derive(Debug, Clone, Copy, PartialEq, Eq, Structural)]
pub enum Method {
    Get,
    Post,
}

/// A request to the service whose body, if it has one, is a JSON object.
#[derive(Debug)]
pub struct JsonRequest {
    pub method: Method,
    pub url: String,
    pub headers: HeaderMap<HeaderValue>,
    pub body: Option<ObjectMap<String, Value>>,
}

/// A request for audio. It goes to the host that keeps the audio, which is not the
/// service, with these header fields and no body.
#[derive(Debug)]
pub struct DownloadRequest {
    pub method: Method,
    pub url: String,
    pub headers: HeaderMap<HeaderValue>,
}

/// Whether `request` downloads what is at `url`: it asks for the URL as it is, and
/// tells the host nothing of the client.
pub open spec fn is_download(url: Seq<char>, request: DownloadRequest) -> bool {
    &&& request.method == Method::Get
    &&& request.url@ == url
    &&& header_fields(request.headers) == no_fields()
}

/// `value`, or `default` where there is none.
pub open spec fn text_or(value: Option<String>, default: Seq<char>) -> Seq<char> {
    match value {
        Some(v) => v@,
        None => default,
    }
}

/// `fields` with the string `value` under `key`, where there is a value.
pub open spec fn with_text(
    fields: Map<Seq<char>, Json>,
    key: Seq<char>,
    value: Option<String>,
) -> Map<Seq<char>, Json> {
    match value {
        Some(v) => fields.insert(key, Json::String(v@)),
        None => fields,
    }
}

/// The JSON value of a speed.
pub open spec fn speed_json(speed: Speed) -> Json {
    match speed {
        Speed::Finite(number) => Json::Number(number),
        Speed::NotFinite => Json::Null,
    }
}

/// The members that the named options give a speech request. `pronounced` is the
/// object that the pronunciations are sent as.
pub open spec fn named_members(
    opts: GenerateOptions,
    pronounced: ObjectMap<String, Value>,
) -> Map<Seq<char>, Json> {
    let fields = no_members().insert("text"@, Json::String(opts.text@)).insert(
        "voice"@,
        Json::String(text_or(opts.voice, "af_bella"@)),
    ).insert("model"@, Json::String(text_or(opts.model, "kokoro"@)));
    let fields = with_text(fields, "format"@, opts.format);
    let fields = with_text(fields, "language"@, opts.language);
    let fields = match opts.speed {
        Some(speed) => fields.insert("speed"@, speed_json(speed)),
        None => fields,
    };
    let fields = with_text(fields, "instructions"@, opts.instructions);
    match opts.pronunciations {
        Some(words) if words@ != Map::<Seq<char>, Seq<char>>::empty() => fields.insert(
            "pronunciations"@,
            Json::Object(pronounced),
        ),
        _ => fields,
    }
}

/// Whether `body` is the body of a speech request: the members that the named
/// options give, and over them those of `extra`.
pub open spec fn is_speech_body(opts: GenerateOptions, body: ObjectMap<String, Value>) -> bool {
    exists|pronounced: ObjectMap<String, Value>|
        {
            &&& opts.pronunciations matches Some(words) ==> members(pronounced) == text_members(
                words@,
            )
            &&& members(body) == (#[trigger] named_members(opts, pronounced)).union_prefer_right(
                members(opts.extra),
            )
        }
}

/// The path under which the job `uuid` is looked at.
pub open spec fn results_path(uuid: Seq<char>) -> Seq<char> {
    "/v1/speech/results/?uuid="@ + form_encoded(uuid)
}

/// The path of the subtitles of the job `uuid`.
pub open spec fn subtitles_path(uuid: Seq<char>, format: Seq<char>) -> Seq<char> {
    "/v1/speech/subtitles/?uuid="@ + form_encoded(uuid) + "&format="@ + form_encoded(format)
}

/// The path of the voice catalog under optional filters.
pub open spec fn voices_path(model: Option<Seq<char>>, language: Option<Seq<char>>) -> Seq<char> {
    match (model, language) {
        (None, None) => "/v1/voices/"@,
        (Some(m), None) => "/v1/voices/"@ + "?"@ + "model="@ + form_encoded(m),
        (None, Some(l)) => "/v1/voices/"@ + "?"@ + "language="@ + form_encoded(l),
        (Some(m), Some(l)) => "/v1/voices/"@ + "?"@ + "model="@ + form_encoded(m) + "&"@
            + "language="@ + form_encoded(l),
    }
}

/// The header fields that carry `api_key` and `user_agent`.
pub open spec fn client_fields(api_key: Seq<char>, user_agent: Seq<char>) -> Map<
    Seq<char>,
    Seq<Seq<u8>>,
> {
    no_fields().insert("authorization"@, seq![encode_utf8("Bearer "@ + api_key)]).insert(
        "user-agent"@,
        seq![encode_utf8(user_agent)],
    )
}

/// A key can stand in a header field exactly if it can behind the word `Bearer`.
proof fn lemma_bearer_text(key: Seq<char>)
    ensures
        header_text_ok("Bearer "@ + key) == header_text_ok(key),
{
    reveal_strlit("Bearer ");
    let bearer = "Bearer "@ + key;
    if header_text_ok(bearer) {
        assert forall|i: int| 0 <= i < key.len() implies header_char_ok(#[trigger] key[i]) by {
            assert(bearer[i + 7] == key[i]);
        }
    }
}

/// A field of a form: some text, or a file.
#[derive(Debug)]
pub enum FormField {
    Text { name: String, text: String },
    File { name: String, file_name: String, bytes: Vec<u8> },
}

/// What a [`FormField`] stands for.
pub enum FormPart {
    Text { name: Seq<char>, text: Seq<char> },
    File { name: Seq<char>, file_name: Seq<char>, bytes: Seq<u8> },
}

impl View for FormField {
    type V = FormPart;

    open spec fn view(&self) -> FormPart {
        match *self {
            FormField::Text { name, text } => FormPart::Text { name: name@, text: text@ },
            FormField::File { name, file_name, bytes } => FormPart::File {
                name: name@,
                file_name: file_name@,
                bytes: bytes@,
            },
        }
    }
}

impl FormField {
    fn text(name: &str, text: String) -> (field: Self)
        ensures
            field@ == (FormPart::Text { name: name@, text: text@ }),
    {
        FormField::Text { name: name.to_string(), text }
    }

    fn file(name: &str, file_name: String, bytes: Vec<u8>) -> (field: Self)
        ensures
            field@ == (FormPart::File { name: name@, file_name: file_name@, bytes: bytes@ }),
    {
        FormField::File { name: name.to_string(), file_name, bytes }
    }
}

/// A request to the service whose body is a multipart form of these fields in this
/// order.
#[derive(Debug)]
pub struct FormRequest {
    pub method: Method,
    pub url: String,
    pub headers: HeaderMap<HeaderValue>,
    pub fields: Vec<FormField>,
}

/// What the fields of a form stand for.
pub open spec fn form_parts(fields: Seq<FormField>) -> Seq<FormPart> {
    fields.map_values(|field: FormField| field@)
}

/// The form that submits audio to be written down.
pub open spec fn transcribe_parts(
    file_name: Option<Seq<char>>,
    audio: Seq<u8>,
    model: Option<Seq<char>>,
) -> Seq<FormPart> {
    seq![
        FormPart::Text { name: "model"@, text: model.unwrap_or("faster-whisper"@) },
        FormPart::File { name: "file"@, file_name: file_name.unwrap_or("audio"@), bytes: audio },
    ]
}

/// A form field of its own for text, where there is some.
pub open spec fn text_part(name: Seq<char>, text: Option<String>) -> Seq<FormPart> {
    match text {
        Some(t) => seq![FormPart::Text { name, text: t@ }],
        None => Seq::empty(),
    }
}

/// The form that submits text to be spoken in the voice of some audio.
pub open spec fn clone_parts(opts: CloneVoiceOptions, audio: Seq<u8>) -> Seq<FormPart> {
    seq![
        FormPart::Text { name: "text"@, text: opts.text@ },
        FormPart::Text { name: "model"@, text: text_or(opts.model, "chatterbox"@) },
    ] + text_part("language"@, opts.language) + text_part("boost"@, opts.boost) + seq![
        FormPart::File {
            name: "reference_audio"@,
            file_name: text_or(opts.audio_file_name, "reference.wav"@),
            bytes: audio,
        },
    ]
}

/// Puts the string `value` under `key`, where there is a value.
fn insert_text(fields: &mut ObjectMap<String, Value>, key: &str, value: Option<String>)
    ensures
        members(*final(fields)) == with_text(members(*old(fields)), key@, value),
{
    if let Some(text) = value {
        object_insert(fields, key.to_string(), JsonValue::String(text));
    }
}

/// Puts every member of `extra` into `fields`, over what is there.
fn insert_extra(fields: &mut ObjectMap<String, Value>, extra: ObjectMap<String, Value>)
    ensures
        members(*final(fields)) == members(*old(fields)).union_prefer_right(members(extra)),
{
    let ghost before = members(*fields);
    let entries = object_into_entries(extra);
    let ghost all = entries@;
    assert(before.union_prefer_right(entry_members(all.take(0))) =~= before);
    for entry in it: entries
        invariant
            it.seq() == all,
            members(*fields) == before.union_prefer_right(entry_members(all.take(it.index()))),
    {
        let ghost i = it.index();
        let ghost done = entry_members(all.take(i));
        assert(all.take(i + 1).drop_last() =~= all.take(i));
        assert(before.union_prefer_right(done).insert(entry.0@, entry.1@)
            =~= before.union_prefer_right(done.insert(entry.0@, entry.1@)));
        object_insert(fields, entry.0, entry.1);
    }
    assert(all.take(all.len() as int) =~= all);
}

impl Client {
    /// The request of `method` to `path` of the service.
    fn request(&self, method: Method, path: &str, body: Option<ObjectMap<String, Value>>) -> (request:
        JsonRequest)
        requires
            header_text_ok(self@.api_key),
            header_text_ok(self@.user_agent),
        ensures
            request.method == method,
            request.url@ == self@.base_url + path@,
            header_fields(request.headers) == client_fields(self@.api_key, self@.user_agent),
            request.body == body,
    {
        JsonRequest { method, url: joined(self.base_url(), path), headers: self.headers(), body }
    }

    /// The request that posts a form to `path` of the service.
    fn form_request(&self, path: &str, fields: Vec<FormField>) -> (request: FormRequest)
        requires
            header_text_ok(self@.api_key),
            header_text_ok(self@.user_agent),
        ensures
            request.method == Method::Post,
            request.url@ == self@.base_url + path@,
            header_fields(request.headers) == client_fields(self@.api_key, self@.user_agent),
            request.fields == fields,
    {
        FormRequest {
            method: Method::Post,
            url: joined(self.base_url(), path),
            headers: self.headers(),
            fields,
        }
    }

    /// The request that submits text to be spoken.
    pub fn generate_async(&self, opts: GenerateOptions) -> (request: JsonRequest)
        requires
            header_text_ok(self@.api_key),
            header_text_ok(self@.user_agent),
        ensures
            request.method == Method::Post,
            request.url@ == self@.base_url + "/v1/tts/"@,
            header_fields(request.headers) == client_fields(self@.api_key, self@.user_agent),
            request.body matches Some(body) && is_speech_body(opts, body),
    {
        let ghost given = opts;
        let mut body = object_new();
        object_insert(&mut body, "text".to_string(), JsonValue::String(opts.text));
        let voice = match opts.voice {
            Some(voice) => voice,
            None => "af_bella".to_string(),
        };
        object_insert(&mut body, "voice".to_string(), JsonValue::String(voice));
        let model = match opts.model {
            Some(model) => model,
            None => "kokoro".to_string(),
        };
        object_insert(&mut body, "model".to_string(), JsonValue::String(model));
        insert_text(&mut body, "format", opts.format);
        insert_text(&mut body, "language", opts.language);
        if let Some(speed) = opts.speed {
            let value = match speed {
                Speed::Finite(number) => JsonValue::Number(number),
                Speed::NotFinite => JsonValue::Null,
            };
            object_insert(&mut body, "speed".to_string(), value);
        }
        insert_text(&mut body, "instructions", opts.instructions);
        let ghost mut pronounced = given.extra;
        if let Some(words) = opts.pronunciations {
            let object = words.to_object();
            proof {
                pronounced = object;
            }
            if !words.is_empty() {
                object_insert(&mut body, "pronunciations".to_string(), JsonValue::Object(object));
            }
        }
        assert(members(body) == named_members(given, pronounced));
        insert_extra(&mut body, opts.extra);
        self.request(Method::Post, "/v1/tts/", Some(body))
    }

    /// The request that looks at how far the job `uuid` is.
    pub fn poll_request(&self, uuid: &str) -> (request: JsonRequest)
        requires
            header_text_ok(self@.api_key),
            header_text_ok(self@.user_agent),
        ensures
            request.method == Method::Get,
            request.url@ == self@.base_url + results_path(uuid@),
            header_fields(request.headers) == client_fields(self@.api_key, self@.user_agent),
            request.body is None,
    {
        let path = joined("/v1/speech/results/?uuid=", form_encode(uuid).as_str());
        self.request(Method::Get, path.as_str(), None)
    }

    /// The request that downloads what is at `url`.
    pub fn download_request(&self, url: &str) -> (request: DownloadRequest)
        ensures
            is_download(url@, request),
    {
        DownloadRequest { method: Method::Get, url: url.to_string(), headers: header_map_new() }
    }

    /// The request that submits audio, of a file of that name, to be written down.
    pub fn transcribe(
        &self,
        file_name: Option<String>,
        audio: Vec<u8>,
        model: Option<&str>,
    ) -> (request: FormRequest)
        requires
            header_text_ok(self@.api_key),
            header_text_ok(self@.user_agent),
        ensures
            request.method == Method::Post,
            request.url@ == self@.base_url + "/v1/transcribe/"@,
            header_fields(request.headers) == client_fields(self@.api_key, self@.user_agent),
            form_parts(request.fields@) == transcribe_parts(
                option_view(file_name),
                audio@,
                option_view(model),
            ),
    {
        let ghost parts = transcribe_parts(option_view(file_name), audio@, option_view(model));
        let file_name = match file_name {
            Some(name) => name,
            None => "audio".to_string(),
        };
        let model = match model {
            Some(model) => model.to_string(),
            None => "faster-whisper".to_string(),
        };
        let mut fields: Vec<FormField> = Vec::new();
        fields.push(FormField::text("model", model));
        fields.push(FormField::file("file", file_name, audio));
        assert(form_parts(fields@) =~= parts);
        self.form_request("/v1/transcribe/", fields)
    }

    /// The request that submits text to be spoken in the voice of the reference
    /// audio.
    pub fn clone_voice(&self, opts: CloneVoiceOptions, audio: Vec<u8>) -> (request: FormRequest)
        requires
            header_text_ok(self@.api_key),
            header_text_ok(self@.user_agent),
        ensures
            request.method == Method::Post,
            request.url@ == self@.base_url + "/v1/voice-clone/"@,
            header_fields(request.headers) == client_fields(self@.api_key, self@.user_agent),
            form_parts(request.fields@) == clone_parts(opts, audio@),
    {
        let ghost given = opts;
        let file_name = match opts.audio_file_name {
            Some(name) => name,
            None => "reference.wav".to_string(),
        };
        let model = match opts.model {
            Some(model) => model,
            None => "chatterbox".to_string(),
        };
        let mut fields: Vec<FormField> = Vec::new();
        fields.push(FormField::text("text", opts.text));
        fields.push(FormField::text("model", model));
        if let Some(language) = opts.language {
            fields.push(FormField::text("language", language));
        }
        if let Some(boost) = opts.boost {
            fields.push(FormField::text("boost", boost));
        }
        fields.push(FormField::file("reference_audio", file_name, audio));
        assert(form_parts(fields@) =~= clone_parts(given, audio@));
        self.form_request("/v1/voice-clone/", fields)
    }

    /// The request for the voice catalog. `model` and `language` are optional
    /// filters.
    pub fn list_voices(&self, model: Option<&str>, language: Option<&str>) -> (request: JsonRequest)
        requires
            header_text_ok(self@.api_key),
            header_text_ok(self@.user_agent),
        ensures
            request.method == Method::Get,
            request.url@ == self@.base_url + voices_path(option_view(model), option_view(language)),
            header_fields(request.headers) == client_fields(self@.api_key, self@.user_agent),
            request.body is None,
    {
        let mut path = "/v1/voices/".to_string();
        let mut sep = "?";
        if let Some(m) = model {
            path.append(sep);
            path.append("model=");
            path.append(form_encode(m).as_str());
            sep = "&";
        }
        if let Some(l) = language {
            path.append(sep);
            path.append("language=");
            path.append(form_encode(l).as_str());
        }
        self.request(Method::Get, path.as_str(), None)
    }

    /// The request for the full `/v1/speech/models/` payload.
    pub fn list_models(&self) -> (request: JsonRequest)
        requires
            header_text_ok(self@.api_key),
            header_text_ok(self@.user_agent),
        ensures
            request.method == Method::Get,
            request.url@ == self@.base_url + "/v1/speech/models/"@,
            header_fields(request.headers) == client_fields(self@.api_key, self@.user_agent),
            request.body is None,
    {
        self.request(Method::Get, "/v1/speech/models/", None)
    }

    /// The request for the SRT or VTT subtitles of a completed speech job.
    pub fn subtitles(&self, uuid: &str, format: &str) -> (request: JsonRequest)
        requires
            header_text_ok(self@.api_key),
            header_text_ok(self@.user_agent),
        ensures
            request.method == Method::Get,
            request.url@ == self@.base_url + subtitles_path(uuid@, format@),
            header_fields(request.headers) == client_fields(self@.api_key, self@.user_agent),
            request.body is None,
    {
        let mut path = joined("/v1/speech/subtitles/?uuid=", form_encode(uuid).as_str());
        path.append("&format=");
        path.append(form_encode(format).as_str());
        self.request(Method::Get, path.as_str(), None)
    }

    /// Whether the API key and the user agent can stand in header fields, as they do
    /// in every request to the service.
    pub fn headers_ready(&self) -> (ready: bool)
        ensures
            ready == (header_text_ok(self@.api_key) && header_text_ok(self@.user_agent)),
    {
        proof {
            lemma_bearer_text(self@.api_key);
        }
        let bearer = joined("Bearer ", self.api_key());
        header_value(bearer.as_str()).is_ok() && header_value(self.user_agent()).is_ok()
    }

    /// The header fields of every request to the service.
    pub fn headers(&self) -> (headers: HeaderMap<HeaderValue>)
        requires
            header_text_ok(self@.api_key),
            header_text_ok(self@.user_agent),
        ensures
            header_fields(headers) == client_fields(self@.api_key, self@.user_agent),
    {
        proof {
            reveal_strlit("authorization");
            reveal_strlit("user-agent");
            lemma_bearer_text(self@.api_key);
        }
        let mut headers = header_map_new();
        let bearer = joined("Bearer ", self.api_key());
        header_map_insert(
            &mut headers,
            "authorization",
            header_value(bearer.as_str()).unwrap(),
        );
        header_map_insert(&mut headers, "user-agent", header_value(self.user_agent()).unwrap());
        headers
    }
}

} // verus!
