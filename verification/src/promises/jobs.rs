//! Following a job.

use crate::client::Client;
use crate::error::Error;
use crate::options::{Job, JobResult};
use crate::request::DownloadRequest;
use crate::session::{GenerateEvent, GenerateStep, PollStep};
use crate::time::{duration_debug, duration_nanos};
use std::time::Duration;
use vstd::prelude::*;

verus! {

/// After a submission the audio is downloaded exactly if the job is completed and
/// has a URL, and then from that URL. In every other case the job is looked at, by
/// its own uuid.
pub proof fn law_a_submission_is_fetched_or_polled(
    client: &Client,
    event: GenerateEvent,
    step: GenerateStep,
)
    requires
        call_ensures(Client::generate, (client, event), step),
    ensures
        event matches GenerateEvent::Submitted(job) ==> {
            &&& step is Fetch <==> job.status@ == "completed"@ && job.result_url is Some
            &&& step matches GenerateStep::Fetch(url) ==> job.result_url == Some(url)
            &&& !(step is Fetch) ==> step == GenerateStep::Poll(job.uuid)
        },
{
}

/// Once a job is completed its audio is downloaded from the URL of its result, and
/// a result without one is a failure that says so. No job is looked at twice.
pub proof fn law_a_completed_job_is_fetched(
    client: &Client,
    event: GenerateEvent,
    step: GenerateStep,
)
    requires
        call_ensures(Client::generate, (client, event), step),
    ensures
        event matches GenerateEvent::Completed(result) ==> {
            &&& step is Fetch <==> result.result_url is Some
            &&& step matches GenerateStep::Fetch(url) ==> result.result_url == Some(url)
            &&& !(step is Poll)
            &&& step is Failed ==> (step matches GenerateStep::Failed(Error::JobFailed(text))
                && text@ == "completed without result_url"@)
        },
{
}

/// Speech is followed from its submission to its audio: the job that is looked at is
/// the one that was submitted, and what is downloaded once it is completed is what is
/// at the URL of its result.
pub proof fn law_speech_is_followed_to_its_audio(
    client: &Client,
    job: Job,
    uuid: &str,
    result: JobResult,
    elapsed: Duration,
    url: &str,
    steps: (GenerateStep, PollStep, GenerateStep),
    request: DownloadRequest,
)
    requires
        call_ensures(Client::generate, (client, GenerateEvent::Submitted(job)), steps.0),
        steps.0 matches GenerateStep::Poll(looked_at) && uuid@ == looked_at@,
        call_ensures(Client::poll_result, (client, uuid, result, elapsed), steps.1),
        steps.1 matches PollStep::Completed(taken) && call_ensures(
            Client::generate,
            (client, GenerateEvent::Completed(taken)),
            steps.2,
        ),
        steps.2 matches GenerateStep::Fetch(at) && url@ == at@,
        call_ensures(Client::download_request, (client, url), request),
    ensures
        uuid@ == job.uuid@,
        job.status@ != "completed"@ || job.result_url is None,
        result.status@ == "completed"@,
        result.result_url matches Some(at) && request.url@ == at@,
{
}

/// A job is followed by what its submission and its result say of it, not by whose
/// client asks.
pub proof fn law_every_client_follows_a_job_alike(
    clients: (&Client, &Client),
    event: GenerateEvent,
    steps: (GenerateStep, GenerateStep),
)
    requires
        call_ensures(Client::generate, (clients.0, event), steps.0),
        call_ensures(Client::generate, (clients.1, event), steps.1),
    ensures
        steps.0 is Fetch || steps.0 is Poll ==> steps.0 == steps.1,
        steps.0 is Failed <==> steps.1 is Failed,
{
}

/// A look at a job ends the waiting exactly if the job is completed, or has failed,
/// or is past the deadline; otherwise the interval is waited before the next look.
pub proof fn law_a_look_ends_the_waiting_or_not(
    client: &Client,
    uuid: &str,
    result: JobResult,
    elapsed: Duration,
    step: PollStep,
)
    requires
        call_ensures(Client::poll_result, (client, uuid, result, elapsed), step),
    ensures
        step is Completed <==> result.status@ == "completed"@,
        step matches PollStep::Completed(taken) ==> taken == result,
        step is Wait <==> {
            &&& result.status@ != "completed"@
            &&& result.status@ != "failed"@
            &&& duration_nanos(elapsed) <= duration_nanos(client@.poll_deadline)
        },
        step matches PollStep::Wait(pause) ==> pause == client@.poll_interval,
{
}

/// The failure of a job is told with its uuid and the reason that the service gave:
/// the message before the error, and that it is unknown where neither is there.
pub proof fn law_a_failed_job_is_told(
    client: &Client,
    uuid: &str,
    result: JobResult,
    elapsed: Duration,
    step: PollStep,
)
    requires
        call_ensures(Client::poll_result, (client, uuid, result, elapsed), step),
    ensures
        step matches PollStep::Failed(Error::JobFailed(_)) <==> result.status@ == "failed"@,
        step matches PollStep::Failed(Error::JobFailed(text)) ==> {
            &&& result.message matches Some(message) ==> text@ == "job "@ + uuid@ + ": "@ + message@
            &&& result.message is None ==> (result.error matches Some(error) ==> text@ == "job "@
                + uuid@ + ": "@ + error@)
            &&& result.message is None && result.error is None ==> text@ == "job "@ + uuid@ + ": "@
                + "unknown error"@
        },
{
    reveal_strlit("completed");
    reveal_strlit("failed");
    assert("completed"@.len() == 9 && "failed"@.len() == 6);
}

/// A job that is given up for being late is told with its uuid and the deadline.
pub proof fn law_a_late_job_is_told(
    client: &Client,
    uuid: &str,
    result: JobResult,
    elapsed: Duration,
    step: PollStep,
)
    requires
        call_ensures(Client::poll_result, (client, uuid, result, elapsed), step),
    ensures
        step matches PollStep::Failed(Error::Timeout(_)) <==> {
            &&& result.status@ != "completed"@
            &&& result.status@ != "failed"@
            &&& duration_nanos(elapsed) > duration_nanos(client@.poll_deadline)
        },
        step matches PollStep::Failed(Error::Timeout(text)) ==> text@ == "job "@ + uuid@
            + " did not complete within "@ + duration_debug(
            duration_nanos(client@.poll_deadline),
        ),
{
}

} // verus!
