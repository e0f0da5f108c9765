//! What is asked of the service, and what it says of a job.

use crate::json::{members, no_members, object_new};
use crate::pronunciations::Pronunciations;
use serde_json::Map as ObjectMap;
use serde_json::Number;
use serde_json::Value;
use vstd::prelude::*;

verus! {

/// How fast to speak.
#[derive(Debug, Clone)]
pub enum Speed {
    /// A speed that JSON has a number for.
    Finite(Number),
    /// A speed that JSON has no number for: it is infinite, or no number at all.
    NotFinite,
}

/// Options for [`crate::Client::generate_async`].
#[derive(Debug, Clone)]
pub struct GenerateOptions {
    pub text: String,
    pub voice: Option<String>,
    pub model: Option<String>,
    pub format: Option<String>,
    pub language: Option<String>,
    pub speed: Option<Speed>,
    pub instructions: Option<String>,
    /// Optional inline pronunciation overrides as `word -> replacement`.
    pub pronunciations: Option<Pronunciations>,
    /// Free-form passthrough for backend-specific knobs (cfg_weight,
    /// exaggeration, voice_design, etc.).
    pub extra: ObjectMap<String, Value>,
}

impl Default for GenerateOptions {
    fn default() -> (options: Self)
        ensures
            options.text@ == Seq::<char>::empty(),
            options.voice is None,
            options.model is None,
            options.format is None,
            options.language is None,
            options.speed is None,
            options.instructions is None,
            options.pronunciations is None,
            members(options.extra) == no_members(),
    {
        GenerateOptions {
            text: String::new(),
            voice: None,
            model: None,
            format: None,
            language: None,
            speed: None,
            instructions: None,
            pronunciations: None,
            extra: object_new(),
        }
    }
}

/// Options for [`crate::Client::clone_voice`].
#[derive(Debug, Clone)]
pub struct CloneVoiceOptions {
    /// The name of the reference audio's file, where its path ends in one.
    pub audio_file_name: Option<String>,
    pub text: String,
    pub model: Option<String>,
    pub language: Option<String>,
    /// Similarity slider in decimal digits (0 = natural, 1 = identical to
    /// reference). Honored by Chatterbox / Chatterbox-Turbo today; other models
    /// ignore it.
    pub boost: Option<String>,
}

impl Default for CloneVoiceOptions {
    fn default() -> (options: Self)
        ensures
            options.audio_file_name is None,
            options.text@ == Seq::<char>::empty(),
            options.model is None,
            options.language is None,
            options.boost is None,
    {
        CloneVoiceOptions {
            audio_file_name: None,
            text: String::new(),
            model: None,
            language: None,
            boost: None,
        }
    }
}

/// Queued-state response from `/v1/tts/`, `/v1/transcribe/`, `/v1/voice-clone/`.
#[derive(Debug)]
pub struct Job {
    pub uuid: String,
    pub job_id: Option<String>,
    pub status: String,
    pub credits_used: Option<u64>,
    pub credits_remaining: Option<u64>,
    /// Server-side cache hit: if present, the audio is already at `result_url`
    /// and there is no need to poll.
    pub result_url: Option<String>,
    pub instructions_supported: Option<bool>,
    pub instructions_applied: Option<bool>,
    pub boost_supported: Option<bool>,
    pub boost_applied: Option<Number>,
    pub other: ObjectMap<String, Value>,
}

/// Terminal-state response from `/v1/speech/results/`.
#[derive(Debug)]
pub struct JobResult {
    pub uuid: String,
    pub status: String,
    pub result_url: Option<String>,
    pub error: Option<String>,
    pub message: Option<String>,
    pub other: ObjectMap<String, Value>,
}

} // verus!
