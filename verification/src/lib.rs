//! Client of the [TTS.ai](https://tts.ai) REST API, without the I/O.
//!
//! A [`Client`] makes the requests of the API as plain values, and decides what
//! each answer means: whether to send a request again, what error a refusal is,
//! whether to look at a job once more, where the audio is. Sending, waiting and
//! reading files is left to whoever drives it.
//!
//! Every function states what it returns. The [`promises`] tell of each operation
//! what it gives for what it is given, and the [`laws`] say what follows for the
//! client as a whole.

pub mod client;
pub mod encoding;
pub mod error;
pub mod header;
pub mod json;
pub mod laws;
pub mod options;
pub mod promises;
pub mod pronunciations;
pub mod reply;
pub mod request;
pub mod session;
pub mod text;
pub mod time;

pub use client::{Client, ClientBuilder};
pub use error::Error;
pub use json::JsonValue;
pub use options::{CloneVoiceOptions, GenerateOptions, Job, JobResult, Speed};
pub use pronunciations::Pronunciations;
pub use reply::{NextStep, Outcome};
pub use request::{DownloadRequest, FormField, FormRequest, JsonRequest, Method};
pub use session::{GenerateEvent, GenerateStep, PollStep};
