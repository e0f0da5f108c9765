//! Settings of a client.

use crate::client::{Client, ClientBuilder};
use crate::text::strip_trailing_slashes;
use crate::time::duration_nanos;
use std::time::Duration;
use vstd::prelude::*;

verus! {

/// A client that was made for a key alone has that key, talks to the public
/// service, names this package as its user agent, sends a request up to twice
/// again, gives it three minutes, looks at a job every second, and for ten minutes.
pub proof fn law_a_new_client_has_the_defaults(
    api_key: String,
    client: &Client,
    texts: (&str, &str, &str),
    retries: u32,
    times: (Duration, Duration, Duration),
)
    requires
        call_ensures(Client::new, (api_key,), *client),
        call_ensures(Client::api_key, (client,), texts.0),
        call_ensures(Client::base_url, (client,), texts.1),
        call_ensures(Client::user_agent, (client,), texts.2),
        call_ensures(Client::max_retries, (client,), retries),
        call_ensures(Client::request_timeout, (client,), times.0),
        call_ensures(Client::poll_interval, (client,), times.1),
        call_ensures(Client::poll_deadline, (client,), times.2),
    ensures
        texts.0@ == api_key@,
        texts.1@ == "https://api.tts.ai"@,
        texts.2@ == "tts-rust/0.1.0 (+https://tts.ai)"@,
        retries == 2,
        duration_nanos(times.0) == 180_000_000_000,
        duration_nanos(times.1) == 1_000_000_000,
        duration_nanos(times.2) == 600_000_000_000,
{
}

/// A builder that nothing was set on builds what a new client is.
pub proof fn law_a_builder_starts_with_the_defaults(
    api_key: String,
    builder: ClientBuilder,
    client: &Client,
)
    requires
        call_ensures(Client::builder, (api_key,), builder),
        call_ensures(ClientBuilder::build, (builder,), *client),
    ensures
        client@.api_key == api_key@,
        client@.base_url == "https://api.tts.ai"@,
        client@.user_agent == "tts-rust/0.1.0 (+https://tts.ai)"@,
        client@.max_retries == 2,
        duration_nanos(client@.request_timeout) == 180_000_000_000,
        duration_nanos(client@.poll_interval) == 1_000_000_000,
        duration_nanos(client@.poll_deadline) == 600_000_000_000,
{
}

/// A client tells what its builder was set to.
pub proof fn law_a_client_tells_its_settings(
    builder: ClientBuilder,
    client: &Client,
    texts: (&str, &str, &str),
    retries: u32,
    times: (Duration, Duration, Duration),
)
    requires
        call_ensures(ClientBuilder::build, (builder,), *client),
        call_ensures(Client::api_key, (client,), texts.0),
        call_ensures(Client::base_url, (client,), texts.1),
        call_ensures(Client::user_agent, (client,), texts.2),
        call_ensures(Client::max_retries, (client,), retries),
        call_ensures(Client::request_timeout, (client,), times.0),
        call_ensures(Client::poll_interval, (client,), times.1),
        call_ensures(Client::poll_deadline, (client,), times.2),
    ensures
        texts.0@ == builder@.api_key,
        texts.1@ == builder@.base_url,
        texts.2@ == builder@.user_agent,
        retries == builder@.max_retries,
        times.0 == builder@.request_timeout,
        times.1 == builder@.poll_interval,
        times.2 == builder@.poll_deadline,
{
}

/// Setting the user agent sets it, and nothing else.
pub proof fn law_the_user_agent_is_set(builder: ClientBuilder, agent: String, after: ClientBuilder)
    requires
        call_ensures(ClientBuilder::user_agent, (builder, agent), after),
    ensures
        after@.user_agent == agent@,
        after@.api_key == builder@.api_key,
        after@.base_url == builder@.base_url,
        after@.max_retries == builder@.max_retries,
        after@.request_timeout == builder@.request_timeout,
        after@.poll_interval == builder@.poll_interval,
        after@.poll_deadline == builder@.poll_deadline,
{
}

/// Setting how often a request is sent again sets it, and nothing else.
pub proof fn law_the_retries_are_set(builder: ClientBuilder, retries: u32, after: ClientBuilder)
    requires
        call_ensures(ClientBuilder::max_retries, (builder, retries), after),
    ensures
        after@.max_retries == retries,
        after@.api_key == builder@.api_key,
        after@.base_url == builder@.base_url,
        after@.user_agent == builder@.user_agent,
        after@.request_timeout == builder@.request_timeout,
        after@.poll_interval == builder@.poll_interval,
        after@.poll_deadline == builder@.poll_deadline,
{
}

/// Setting how long a request may take sets it, and nothing else.
pub proof fn law_the_request_timeout_is_set(
    builder: ClientBuilder,
    timeout: Duration,
    after: ClientBuilder,
)
    requires
        call_ensures(ClientBuilder::request_timeout, (builder, timeout), after),
    ensures
        after@.request_timeout == timeout,
        after@.api_key == builder@.api_key,
        after@.base_url == builder@.base_url,
        after@.user_agent == builder@.user_agent,
        after@.max_retries == builder@.max_retries,
        after@.poll_interval == builder@.poll_interval,
        after@.poll_deadline == builder@.poll_deadline,
{
}

/// Setting the pause between two looks at a job sets it, and nothing else.
pub proof fn law_the_poll_interval_is_set(
    builder: ClientBuilder,
    interval: Duration,
    after: ClientBuilder,
)
    requires
        call_ensures(ClientBuilder::poll_interval, (builder, interval), after),
    ensures
        after@.poll_interval == interval,
        after@.api_key == builder@.api_key,
        after@.base_url == builder@.base_url,
        after@.user_agent == builder@.user_agent,
        after@.max_retries == builder@.max_retries,
        after@.request_timeout == builder@.request_timeout,
        after@.poll_deadline == builder@.poll_deadline,
{
}

/// Setting how long a job is looked at sets it, and nothing else.
pub proof fn law_the_poll_deadline_is_set(
    builder: ClientBuilder,
    deadline: Duration,
    after: ClientBuilder,
)
    requires
        call_ensures(ClientBuilder::poll_deadline, (builder, deadline), after),
    ensures
        after@.poll_deadline == deadline,
        after@.api_key == builder@.api_key,
        after@.base_url == builder@.base_url,
        after@.user_agent == builder@.user_agent,
        after@.max_retries == builder@.max_retries,
        after@.request_timeout == builder@.request_timeout,
        after@.poll_interval == builder@.poll_interval,
{
}

/// Setting the base URL sets it to the URL without the slashes at its end, and sets
/// nothing else: the URL is what was set and then slashes alone.
pub proof fn law_the_base_url_is_set(builder: ClientBuilder, url: String, after: ClientBuilder)
    requires
        call_ensures(ClientBuilder::base_url, (builder, url), after),
    ensures
        after@.base_url.len() <= url@.len(),
        after@.base_url == url@.take(after@.base_url.len() as int),
        after@.base_url.len() > 0 ==> after@.base_url.last() != '/',
        forall|i: int| after@.base_url.len() <= i < url@.len() ==> #[trigger] url@[i] == '/',
        after@.api_key == builder@.api_key,
        after@.user_agent == builder@.user_agent,
        after@.max_retries == builder@.max_retries,
        after@.request_timeout == builder@.request_timeout,
        after@.poll_interval == builder@.poll_interval,
        after@.poll_deadline == builder@.poll_deadline,
{
    crate::laws::law_only_trailing_slashes_go(url@);
}

/// Text without its trailing slashes is a prefix of it that does not end with a
/// slash, and nothing but slashes is missing.
pub proof fn law_slashes_are_stripped(text: &str, stripped: String)
    requires
        call_ensures(strip_trailing_slashes, (text,), stripped),
    ensures
        stripped@.len() <= text@.len(),
        stripped@ == text@.take(stripped@.len() as int),
        stripped@.len() > 0 ==> stripped@.last() != '/',
        forall|i: int| stripped@.len() <= i < text@.len() ==> #[trigger] text@[i] == '/',
{
    crate::laws::law_only_trailing_slashes_go(text@);
}

/// A copy of a client, or of a builder, is set to the same.
pub proof fn law_copies_are_set_alike(
    client: &Client,
    other: Client,
    builder: &ClientBuilder,
    another: ClientBuilder,
)
    requires
        call_ensures(<Client as Clone>::clone, (client,), other),
        call_ensures(<ClientBuilder as Clone>::clone, (builder,), another),
    ensures
        other@ == client@,
        another@ == builder@,
{
}

} // verus!
