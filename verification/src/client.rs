//! What a client is configured with.

use crate::header::header_text_ok;
use crate::text::{ends_with_slash, lemma_stripped, without_trailing_slashes};
use crate::text::strip_trailing_slashes;
use crate::time::{duration_nanos, NANOS_PER_SEC};
use std::time::Duration;
use vstd::prelude::*;

verus! {

/// The URL of the service that a client talks to unless told otherwise.
pub const DEFAULT_BASE_URL: &'static str = "https://api.tts.ai";

/// The user agent that a client names unless told otherwise. The version in it is
/// that of the package.
pub const DEFAULT_USER_AGENT: &'static str = "tts-rust/0.1.0 (+https://tts.ai)";

/// What a client, or a builder of one, is set to.
pub struct Settings {
    pub api_key: Seq<char>,
    pub base_url: Seq<char>,
    pub user_agent: Seq<char>,
    pub max_retries: u32,
    pub request_timeout: Duration,
    pub poll_interval: Duration,
    pub poll_deadline: Duration,
}

/// A client of the TTS.ai REST API: it decides what is sent, and what a reply
/// means. It sends nothing itself.
#[derive(Debug)]
pub struct Client {
    api_key: String,
    base_url: String,
    user_agent: String,
    max_retries: u32,
    request_timeout: Duration,
    poll_interval: Duration,
    poll_deadline: Duration,
}

impl View for Client {
    type V = Settings;

    closed spec fn view(&self) -> Settings {
        Settings {
            api_key: self.api_key@,
            base_url: self.base_url@,
            user_agent: self.user_agent@,
            max_retries: self.max_retries,
            request_timeout: self.request_timeout,
            poll_interval: self.poll_interval,
            poll_deadline: self.poll_deadline,
        }
    }
}

/// Builder for [`Client`]. Consume with [`ClientBuilder::build`].
#[derive(Debug)]
pub struct ClientBuilder {
    api_key: String,
    base_url: String,
    user_agent: String,
    max_retries: u32,
    request_timeout: Duration,
    poll_interval: Duration,
    poll_deadline: Duration,
}

impl View for ClientBuilder {
    type V = Settings;

    closed spec fn view(&self) -> Settings {
        Settings {
            api_key: self.api_key@,
            base_url: self.base_url@,
            user_agent: self.user_agent@,
            max_retries: self.max_retries,
            request_timeout: self.request_timeout,
            poll_interval: self.poll_interval,
            poll_deadline: self.poll_deadline,
        }
    }
}

impl Clone for Client {
    fn clone(&self) -> (copy: Self)
        ensures
            copy@ == self@,
    {
        proof {
            use_type_invariant(self);
        }
        Client {
            api_key: self.api_key.clone(),
            base_url: self.base_url.clone(),
            user_agent: self.user_agent.clone(),
            max_retries: self.max_retries,
            request_timeout: self.request_timeout,
            poll_interval: self.poll_interval,
            poll_deadline: self.poll_deadline,
        }
    }
}

impl Clone for ClientBuilder {
    fn clone(&self) -> (copy: Self)
        ensures
            copy@ == self@,
    {
        proof {
            use_type_invariant(self);
        }
        ClientBuilder {
            api_key: self.api_key.clone(),
            base_url: self.base_url.clone(),
            user_agent: self.user_agent.clone(),
            max_retries: self.max_retries,
            request_timeout: self.request_timeout,
            poll_interval: self.poll_interval,
            poll_deadline: self.poll_deadline,
        }
    }
}

/// What a builder is set to when it is made for `api_key`.
pub open spec fn is_default_for(settings: Settings, api_key: Seq<char>) -> bool {
    &&& settings.api_key == api_key
    &&& settings.base_url == DEFAULT_BASE_URL@
    &&& settings.user_agent == DEFAULT_USER_AGENT@
    &&& settings.max_retries == 2
    &&& duration_nanos(settings.request_timeout) == 180 * NANOS_PER_SEC
    &&& duration_nanos(settings.poll_interval) == NANOS_PER_SEC
    &&& duration_nanos(settings.poll_deadline) == 600 * NANOS_PER_SEC
}

impl Client {
    /// The base URL of every client ends with no slash.
    #[verifier::type_invariant]
    spec fn base_url_stripped(self) -> bool {
        !ends_with_slash(self.base_url@)
    }

    /// A client with default settings (api.tts.ai, 180 s timeout).
    pub fn new(api_key: String) -> (client: Self)
        ensures
            is_default_for(client@, api_key@),
            header_text_ok(client@.user_agent),
    {
        Self::builder(api_key).build()
    }

    /// Builder for non-default settings.
    pub fn builder(api_key: String) -> (builder: ClientBuilder)
        ensures
            is_default_for(builder@, api_key@),
            header_text_ok(builder@.user_agent),
    {
        proof {
            reveal_strlit("https://api.tts.ai");
            reveal_strlit("tts-rust/0.1.0 (+https://tts.ai)");
        }
        ClientBuilder {
            api_key,
            base_url: DEFAULT_BASE_URL.to_string(),
            user_agent: DEFAULT_USER_AGENT.to_string(),
            max_retries: 2,
            request_timeout: Duration::from_secs(180),
            poll_interval: Duration::from_secs(1),
            poll_deadline: Duration::from_secs(600),
        }
    }

    /// The URL of the service. It ends with no slash.
    pub fn base_url(&self) -> (url: &str)
        ensures
            url@ == self@.base_url,
            !ends_with_slash(url@),
    {
        proof {
            use_type_invariant(self);
        }
        self.base_url.as_str()
    }

    /// The API key that requests carry.
    pub fn api_key(&self) -> (key: &str)
        ensures
            key@ == self@.api_key,
    {
        self.api_key.as_str()
    }

    /// The user agent that requests name.
    pub fn user_agent(&self) -> (agent: &str)
        ensures
            agent@ == self@.user_agent,
    {
        self.user_agent.as_str()
    }

    /// How often a request is sent again.
    pub fn max_retries(&self) -> (retries: u32)
        ensures
            retries == self@.max_retries,
    {
        self.max_retries
    }

    /// How long a single request may take.
    pub fn request_timeout(&self) -> (timeout: Duration)
        ensures
            timeout == self@.request_timeout,
    {
        self.request_timeout
    }

    /// The pause between two looks at a job.
    pub fn poll_interval(&self) -> (interval: Duration)
        ensures
            interval == self@.poll_interval,
    {
        self.poll_interval
    }

    /// How long a job is looked at before it is given up.
    pub fn poll_deadline(&self) -> (deadline: Duration)
        ensures
            deadline == self@.poll_deadline,
    {
        self.poll_deadline
    }
}

impl ClientBuilder {
    /// The base URL of every builder ends with no slash.
    #[verifier::type_invariant]
    spec fn base_url_stripped(self) -> bool {
        !ends_with_slash(self.base_url@)
    }

    /// Sets the URL of the service. Slashes at its end are taken away.
    pub fn base_url(self, base_url: String) -> (builder: Self)
        ensures
            builder@ == (Settings { base_url: without_trailing_slashes(base_url@), ..self@ }),
    {
        proof {
            lemma_stripped(base_url@);
        }
        ClientBuilder { base_url: strip_trailing_slashes(base_url.as_str()), ..self }
    }

    /// Sets the user agent that requests name.
    pub fn user_agent(self, ua: String) -> (builder: Self)
        ensures
            builder@ == (Settings { user_agent: ua@, ..self@ }),
    {
        proof {
            use_type_invariant(&self);
        }
        ClientBuilder { user_agent: ua, ..self }
    }

    /// Sets how often a request is sent again.
    pub fn max_retries(self, n: u32) -> (builder: Self)
        ensures
            builder@ == (Settings { max_retries: n, ..self@ }),
    {
        proof {
            use_type_invariant(&self);
        }
        ClientBuilder { max_retries: n, ..self }
    }

    /// Sets how long a single request may take.
    pub fn request_timeout(self, d: Duration) -> (builder: Self)
        ensures
            builder@ == (Settings { request_timeout: d, ..self@ }),
    {
        proof {
            use_type_invariant(&self);
        }
        ClientBuilder { request_timeout: d, ..self }
    }

    /// Sets the pause between two looks at a job.
    pub fn poll_interval(self, d: Duration) -> (builder: Self)
        ensures
            builder@ == (Settings { poll_interval: d, ..self@ }),
    {
        proof {
            use_type_invariant(&self);
        }
        ClientBuilder { poll_interval: d, ..self }
    }

    /// Sets how long a job is looked at before it is given up.
    pub fn poll_deadline(self, d: Duration) -> (builder: Self)
        ensures
            builder@ == (Settings { poll_deadline: d, ..self@ }),
    {
        proof {
            use_type_invariant(&self);
        }
        ClientBuilder { poll_deadline: d, ..self }
    }

    /// The client with the settings made so far.
    pub fn build(self) -> (client: Client)
        ensures
            client@ == self@,
            !ends_with_slash(client@.base_url),
    {
        proof {
            use_type_invariant(&self);
        }
        Client {
            api_key: self.api_key,
            base_url: self.base_url,
            user_agent: self.user_agent,
            max_retries: self.max_retries,
            request_timeout: self.request_timeout,
            poll_interval: self.poll_interval,
            poll_deadline: self.poll_deadline,
        }
    }
}

} // verus!
