use serde_json::{Number, Value};
use ttsai::encoding::form_encode;
use ttsai::{Client, CloneVoiceOptions, FormField, GenerateOptions, Method, Pronunciations, Speed};

fn client() -> Client {
    Client::builder("sk-tts-test".to_string())
        .base_url("http://h".to_string())
        .build()
}

fn words(pairs: &[(&str, &str)]) -> Pronunciations {
    let mut words = Pronunciations::new();
    for (word, replacement) in pairs {
        words.insert(word.to_string(), replacement.to_string());
    }
    words
}

fn text_field(field: &FormField) -> (&str, &str) {
    match field {
        FormField::Text { name, text } => (name, text),
        other => panic!("{other:?}"),
    }
}

fn file_field(field: &FormField) -> (&str, &str, &[u8]) {
    match field {
        FormField::File { name, file_name, bytes } => (name, file_name, bytes),
        other => panic!("{other:?}"),
    }
}

#[test]
fn a_speech_request_has_defaults() {
    let r = client().generate_async(GenerateOptions {
        text: "hi".into(),
        ..Default::default()
    });
    assert_eq!(r.method, Method::Post);
    assert_eq!(r.url, "http://h/v1/tts/");
    assert_eq!(
        serde_json::to_string(&r.body.unwrap()).unwrap(),
        r#"{"model":"kokoro","text":"hi","voice":"af_bella"}"#
    );
}

#[test]
fn a_speech_request_has_what_was_asked_for() {
    let r = client().generate_async(GenerateOptions {
        text: "Hello".into(),
        voice: Some("v".into()),
        model: Some("m".into()),
        format: Some("mp3".into()),
        language: Some("en".into()),
        speed: Some(Speed::Finite(Number::from_f64(1.5).unwrap())),
        instructions: Some("sarcastic".into()),
        pronunciations: Some(words(&[("GIF", "jiff"), ("SQL", "sequel")])),
        extra: serde_json::Map::new(),
    });
    assert_eq!(
        serde_json::to_string(&r.body.unwrap()).unwrap(),
        concat_lines(&[
            r#"{"format":"mp3","instructions":"sarcastic","language":"en","model":"m","#,
            r#""pronunciations":{"GIF":"jiff","SQL":"sequel"},"speed":1.5,"text":"Hello","voice":"v"}"#,
        ])
    );
}

fn concat_lines(parts: &[&str]) -> String {
    parts.concat()
}

#[test]
fn a_speed_without_a_number_is_null() {
    assert!(Number::from_f64(f64::NAN).is_none());
    let r = client().generate_async(GenerateOptions {
        speed: Some(Speed::NotFinite),
        ..Default::default()
    });
    assert_eq!(r.body.unwrap().get("speed"), Some(&Value::Null));
}

#[test]
fn no_pronunciations_are_not_sent() {
    let r = client().generate_async(GenerateOptions {
        pronunciations: Some(Pronunciations::new()),
        ..Default::default()
    });
    assert!(r.body.unwrap().get("pronunciations").is_none());
}

#[test]
fn the_last_replacement_counts() {
    let r = client().generate_async(GenerateOptions {
        pronunciations: Some(words(&[("a", "1"), ("b", "2"), ("a", "3")])),
        ..Default::default()
    });
    assert_eq!(
        serde_json::to_string(r.body.unwrap().get("pronunciations").unwrap()).unwrap(),
        r#"{"a":"3","b":"2"}"#
    );
}

#[test]
fn extra_members_win_over_named_options() {
    let mut extra = serde_json::Map::new();
    extra.insert("voice".into(), Value::from(7));
    extra.insert("cfg_weight".into(), Value::Number(Number::from_f64(0.25).unwrap()));
    extra.insert("nested".into(), Value::Array(vec![Value::Bool(true), Value::Null]));
    let r = client().generate_async(GenerateOptions {
        text: "t".into(),
        voice: Some("ignored".into()),
        extra,
        ..Default::default()
    });
    assert_eq!(
        serde_json::to_string(&r.body.unwrap()).unwrap(),
        r#"{"cfg_weight":0.25,"model":"kokoro","nested":[true,null],"text":"t","voice":7}"#
    );
}

#[test]
fn options_can_be_cloned() {
    let mut extra = serde_json::Map::new();
    extra.insert("k".into(), Value::from(1));
    let opts = GenerateOptions {
        text: "t".into(),
        speed: Some(Speed::Finite(Number::from_f64(2.5).unwrap())),
        pronunciations: Some(words(&[("a", "1"), ("b", "2")])),
        extra,
        ..Default::default()
    };
    let copy = client().generate_async(opts.clone());
    assert_eq!(copy.body, client().generate_async(opts).body);
}

#[test]
fn no_words_are_empty() {
    assert!(Pronunciations::new().is_empty());
    let one = words(&[("a", "")]);
    assert!(!one.is_empty());
    assert!(!one.clone().is_empty());
}

#[test]
fn every_request_to_the_service_carries_key_and_agent() {
    let c = client();
    for request in [
        c.generate_async(GenerateOptions::default()),
        c.poll_request("u"),
        c.list_voices(None, Some("en")),
        c.list_models(),
        c.subtitles("u", "srt"),
    ] {
        assert_eq!(request.headers.len(), 2);
        assert_eq!(request.headers.get("authorization").unwrap(), "Bearer sk-tts-test");
        assert_eq!(request.headers.get("user-agent").unwrap(), "tts-rust/0.1.0 (+https://tts.ai)");
    }
    for request in [
        c.transcribe(None, vec![1], None),
        c.clone_voice(CloneVoiceOptions::default(), vec![1]),
    ] {
        assert_eq!(request.method, Method::Post);
        assert_eq!(request.headers.len(), 2);
        assert_eq!(request.headers.get("authorization").unwrap(), "Bearer sk-tts-test");
        assert_eq!(request.headers.get("user-agent").unwrap(), "tts-rust/0.1.0 (+https://tts.ai)");
    }
}

#[test]
fn text_is_encoded_for_queries() {
    assert_eq!(form_encode(""), "");
    assert_eq!(form_encode("AZaz09*-._"), "AZaz09*-._");
    assert_eq!(form_encode("a b"), "a+b");
    assert_eq!(form_encode("&=?#/%+~"), "%26%3D%3F%23%2F%25%2B%7E");
    assert_eq!(form_encode("\u{e9}\u{1f600}\n"), "%C3%A9%F0%9F%98%80%0A");
}

#[test]
fn jobs_are_looked_at_under_their_own_path() {
    let r = client().poll_request("a b&c");
    assert_eq!(r.method, Method::Get);
    assert_eq!(r.url, "http://h/v1/speech/results/?uuid=a+b%26c");
    assert!(r.body.is_none());
    assert_ne!(client().poll_request("a+b").url, client().poll_request("a b").url);
}

#[test]
fn voices_are_filtered_in_the_query() {
    let c = client();
    assert_eq!(c.list_voices(None, None).url, "http://h/v1/voices/");
    assert_eq!(c.list_voices(Some("k&o"), None).url, "http://h/v1/voices/?model=k%26o");
    assert_eq!(c.list_voices(None, Some("en")).url, "http://h/v1/voices/?language=en");
    let both = c.list_voices(Some("kokoro"), Some("en"));
    assert_eq!(both.url, "http://h/v1/voices/?model=kokoro&language=en");
    assert_eq!(both.method, Method::Get);
    assert!(both.body.is_none());
}

#[test]
fn models_and_subtitles_have_paths() {
    let m = client().list_models();
    assert_eq!((m.method, m.url.as_str()), (Method::Get, "http://h/v1/speech/models/"));
    assert!(m.body.is_none());
    let s = client().subtitles("u/1", "srt");
    assert_eq!(s.method, Method::Get);
    assert_eq!(s.url, "http://h/v1/speech/subtitles/?uuid=u%2F1&format=srt");
    assert!(s.body.is_none());
    assert_ne!(client().subtitles("u&format=a", "b").url, client().subtitles("u", "a&format=b").url);
}

#[test]
fn audio_is_submitted_to_be_written_down() {
    let r = client().transcribe(Some("talk.mp3".into()), vec![1, 2, 3], Some("w"));
    assert_eq!(r.url, "http://h/v1/transcribe/");
    assert_eq!(r.fields.len(), 2);
    assert_eq!(text_field(&r.fields[0]), ("model", "w"));
    assert_eq!(file_field(&r.fields[1]), ("file", "talk.mp3", &[1u8, 2, 3][..]));

    let r = client().transcribe(None, vec![], None);
    assert_eq!(text_field(&r.fields[0]), ("model", "faster-whisper"));
    assert_eq!(file_field(&r.fields[1]), ("file", "audio", &[][..]));
}

#[test]
fn a_voice_is_cloned_from_audio() {
    let r = client().clone_voice(
        CloneVoiceOptions {
            audio_file_name: Some("ref.wav".into()),
            text: "Read".into(),
            model: Some("cb".into()),
            language: Some("en".into()),
            boost: Some(0.7f64.to_string()),
        },
        vec![9, 8],
    );
    assert_eq!(r.url, "http://h/v1/voice-clone/");
    assert_eq!(r.fields.len(), 5);
    assert_eq!(text_field(&r.fields[0]), ("text", "Read"));
    assert_eq!(text_field(&r.fields[1]), ("model", "cb"));
    assert_eq!(text_field(&r.fields[2]), ("language", "en"));
    assert_eq!(text_field(&r.fields[3]), ("boost", "0.7"));
    assert_eq!(file_field(&r.fields[4]), ("reference_audio", "ref.wav", &[9u8, 8][..]));

    let r = client().clone_voice(CloneVoiceOptions::default(), vec![5]);
    assert_eq!(r.fields.len(), 3);
    assert_eq!(text_field(&r.fields[0]), ("text", ""));
    assert_eq!(text_field(&r.fields[1]), ("model", "chatterbox"));
    assert_eq!(file_field(&r.fields[2]), ("reference_audio", "reference.wav", &[5u8][..]));
}
