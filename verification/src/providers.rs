//! Provider endpoint configuration and the decision logic of the polling
//! provider's three-step lifecycle (upload, submit, poll until done).

use vstd::prelude::*;
use crate::settings::TranscriptionProvider;
use crate::text::{str_eq, trim_chars, str_to_chars, chars_to_string, trim_spec, opt_str_view};

verus! {

/// How many times the result endpoint is polled before giving up, at one
/// poll per second.
pub const MAX_POLL_ATTEMPTS: u32 = 30;

/// The delay between two polls of the result endpoint, in milliseconds.
pub const POLL_INTERVAL_MS: u64 = 1000;

/// The transcription endpoint and model for each multipart provider. The
/// polling provider has its own lifecycle, so a request for its
/// configuration falls back to the faster multipart provider.
pub fn get_provider_config(provider: TranscriptionProvider) -> (r: (String, String))
    ensures
        provider == TranscriptionProvider::OpenAI ==> r.0@
            == "https://api.openai.com/v1/audio/transcriptions"@ && r.1@ == "gpt-4o-transcribe"@,
        provider != TranscriptionProvider::OpenAI ==> r.0@
            == "https://api.groq.com/openai/v1/audio/transcriptions"@ && r.1@
            == "whisper-large-v3"@,
{
    match provider {
        TranscriptionProvider::OpenAI => (
            String::from_str("https://api.openai.com/v1/audio/transcriptions"),
            String::from_str("gpt-4o-transcribe"),
        ),
        TranscriptionProvider::Groq => (
            String::from_str("https://api.groq.com/openai/v1/audio/transcriptions"),
            String::from_str("whisper-large-v3"),
        ),
        TranscriptionProvider::Gladia => (
            String::from_str("https://api.groq.com/openai/v1/audio/transcriptions"),
            String::from_str("whisper-large-v3"),
        ),
    }
}

/// What one poll of the result endpoint decides.
#[derive(Clone, Debug)]
pub enum PollDecision {
    /// The job finished; the payload is the trimmed transcript.
    Finished { transcript: String },
    /// The job failed on the provider's side, or finished without a result.
    Failed,
    /// Still queued or running; poll again after the interval.
    ContinueAfterDelay,
    /// The poll budget is spent.
    TimedOut,
}

/// The decision a poll response leads to, over the reported status, the
/// transcript when one was delivered, and how many polls happened so far.
pub open spec fn poll_decision_spec(
    status: Seq<char>,
    transcript: Option<Seq<char>>,
    attempt: u32,
) -> PollDecisionSpec {
    if status == "done"@ {
        match transcript {
            Option::Some(t) => PollDecisionSpec::Finished { transcript: trim_spec(t) },
            Option::None => PollDecisionSpec::Failed,
        }
    } else if status == "error"@ {
        PollDecisionSpec::Failed
    } else if attempt + 1 < MAX_POLL_ATTEMPTS {
        PollDecisionSpec::ContinueAfterDelay
    } else {
        PollDecisionSpec::TimedOut
    }
}

/// The ghost image of a `PollDecision`.
pub enum PollDecisionSpec {
    Finished { transcript: Seq<char> },
    Failed,
    ContinueAfterDelay,
    TimedOut,
}

/// The view of a `PollDecision`.
pub open spec fn poll_decision_view(d: PollDecision) -> PollDecisionSpec {
    match d {
        PollDecision::Finished { transcript } => PollDecisionSpec::Finished {
            transcript: transcript@,
        },
        PollDecision::Failed => PollDecisionSpec::Failed,
        PollDecision::ContinueAfterDelay => PollDecisionSpec::ContinueAfterDelay,
        PollDecision::TimedOut => PollDecisionSpec::TimedOut,
    }
}

/// Decides what one poll response of the polling provider means. `status`
/// is the job status the response reported; `transcript` is the full
/// transcript when the response carried one; `attempt` counts the polls
/// already made (starting at zero).
pub fn poll_step(status: &str, transcript: Option<String>, attempt: u32) -> (d: PollDecision)
    requires
        attempt < MAX_POLL_ATTEMPTS,
    ensures
        poll_decision_view(d) == poll_decision_spec(status@, opt_str_view(transcript), attempt),
{
    if str_eq(status, "done") {
        match transcript {
            Option::Some(t) => {
                let chars = str_to_chars(t.as_str());
                let trimmed = trim_chars(&chars);
                PollDecision::Finished { transcript: chars_to_string(&trimmed) }
            },
            Option::None => PollDecision::Failed,
        }
    } else if str_eq(status, "error") {
        PollDecision::Failed
    } else if attempt + 1 < MAX_POLL_ATTEMPTS {
        PollDecision::ContinueAfterDelay
    } else {
        PollDecision::TimedOut
    }
}

} // verus!
