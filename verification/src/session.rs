//! How a job is followed from its submission to its audio.

use crate::client::{Client, Settings};
use crate::error::Error;
use crate::options::{Job, JobResult};
use crate::text::joined;
use crate::time::{duration_debug, duration_nanos, duration_text, longer_than};
use std::time::Duration;
use vstd::prelude::*;

verus! {

/// What to do after a look at a job.
#[derive(Debug)]
pub enum PollStep {
    /// The job is completed, with this result.
    Completed(JobResult),
    /// The job is given up.
    Failed(Error),
    /// Wait so long, and look again.
    Wait(Duration),
}

/// What happened while speech was being generated.
#[derive(Debug)]
pub enum GenerateEvent {
    /// The request was submitted, and this job came back.
    Submitted(Job),
    /// The job was looked at until it was completed, with this result.
    Completed(JobResult),
}

/// What to do next to get at the audio.
#[derive(Debug)]
pub enum GenerateStep {
    /// Download the audio from this URL.
    Fetch(String),
    /// Look at the job of this uuid until it is completed.
    Poll(String),
    /// Give up.
    Failed(Error),
}

/// What is wrong with a failed job, as far as the service says.
pub open spec fn failure_reason(result: JobResult) -> Seq<char> {
    match (result.message, result.error) {
        (Some(message), _) => message@,
        (None, Some(error)) => error@,
        (None, None) => "unknown error"@,
    }
}

/// Whether `step` is what to do after a look at the job `uuid` showed `result`,
/// `elapsed` after the first look was begun.
pub open spec fn is_poll_step(
    settings: Settings,
    uuid: Seq<char>,
    result: JobResult,
    elapsed: Duration,
    step: PollStep,
) -> bool {
    if result.status@ == "completed"@ {
        step == PollStep::Completed(result)
    } else if result.status@ == "failed"@ {
        &&& step matches PollStep::Failed(Error::JobFailed(text))
        &&& text@ == "job "@ + uuid + ": "@ + failure_reason(result)
    } else if duration_nanos(elapsed) > duration_nanos(settings.poll_deadline) {
        &&& step matches PollStep::Failed(Error::Timeout(text))
        &&& text@ == "job "@ + uuid + " did not complete within "@ + duration_debug(
            duration_nanos(settings.poll_deadline),
        )
    } else {
        step == PollStep::Wait(settings.poll_interval)
    }
}

/// Whether `step` is what to do after `event`.
///
/// Audio that the service had at hand is downloaded at once; any other job is
/// looked at first.
pub open spec fn is_generate_step(event: GenerateEvent, step: GenerateStep) -> bool {
    match event {
        GenerateEvent::Submitted(job) => match job.result_url {
            Some(url) if job.status@ == "completed"@ => step == GenerateStep::Fetch(url),
            _ => step == GenerateStep::Poll(job.uuid),
        },
        GenerateEvent::Completed(result) => match result.result_url {
            Some(url) => step == GenerateStep::Fetch(url),
            None => {
                &&& step matches GenerateStep::Failed(Error::JobFailed(text))
                &&& text@ == "completed without result_url"@
            },
        },
    }
}

impl Client {
    /// What to do after a look at the job `uuid` showed `result`, `elapsed` after
    /// the first look was begun.
    pub fn poll_result(&self, uuid: &str, result: JobResult, elapsed: Duration) -> (step: PollStep)
        ensures
            is_poll_step(self@, uuid@, result, elapsed, step),
    {
        if result.status == "completed".to_string() {
            PollStep::Completed(result)
        } else if result.status == "failed".to_string() {
            let reason = match (result.message, result.error) {
                (Some(message), _) => message,
                (None, Some(error)) => error,
                (None, None) => "unknown error".to_string(),
            };
            let mut text = joined("job ", uuid);
            text.append(": ");
            text.append(reason.as_str());
            PollStep::Failed(Error::JobFailed(text))
        } else if longer_than(elapsed, self.poll_deadline()) {
            let mut text = joined("job ", uuid);
            text.append(" did not complete within ");
            text.append(duration_text(self.poll_deadline()).as_str());
            PollStep::Failed(Error::Timeout(text))
        } else {
            PollStep::Wait(self.poll_interval())
        }
    }

    /// What to do next to get at the audio of a speech request.
    pub fn generate(&self, event: GenerateEvent) -> (step: GenerateStep)
        ensures
            is_generate_step(event, step),
    {
        match event {
            GenerateEvent::Submitted(job) => {
                if job.status == "completed".to_string() {
                    if let Some(url) = job.result_url {
                        return GenerateStep::Fetch(url);
                    }
                }
                GenerateStep::Poll(job.uuid)
            },
            GenerateEvent::Completed(result) => match result.result_url {
                Some(url) => GenerateStep::Fetch(url),
                None => GenerateStep::Failed(
                    Error::JobFailed("completed without result_url".to_string()),
                ),
            },
        }
    }
}

} // verus!
