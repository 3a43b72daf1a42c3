//! Retry policy shared by the transcription and chat-completion clients:
//! up to three attempts, with backoff delays of 0, 500 and 1000 ms between
//! them. Server errors, rate limits and transport failures are retried;
//! any other client error fails at once. A body that trims to nothing fails
//! a chat request at once (an empty completion is no cleaned text), but a
//! transcription request accepts it: an empty transcript is a valid answer
//! about silent audio, and the pipeline itself rejects it as no speech.

use vstd::prelude::*;
use crate::text::{trim_spec, trim_chars, str_to_chars, chars_to_string};

verus! {

/// The number of attempts one request is given.
pub const MAX_RETRIES: u32 = 3;

/// What one HTTP attempt came back with, as the caller observed it.
#[derive(Clone, Debug)]
pub enum AttemptOutcome {
    /// A success status; the payload is the response body.
    Success { body: String },
    /// A non-success HTTP status.
    HttpError { status: u16 },
    /// The request itself failed (timeout, transport error).
    NetworkError,
}

/// The ghost image of an `AttemptOutcome`.
pub enum AttemptOutcomeSpec {
    Success { body: Seq<char> },
    HttpError { status: u16 },
    NetworkError,
}

/// The view of an `AttemptOutcome`.
pub open spec fn attempt_outcome_view(o: AttemptOutcome) -> AttemptOutcomeSpec {
    match o {
        AttemptOutcome::Success { body } => AttemptOutcomeSpec::Success { body: body@ },
        AttemptOutcome::HttpError { status } => AttemptOutcomeSpec::HttpError { status },
        AttemptOutcome::NetworkError => AttemptOutcomeSpec::NetworkError,
    }
}

/// What the policy decides after one attempt.
#[derive(Clone, Debug)]
pub enum RetryStep {
    /// The attempt succeeded; the payload is the trimmed body.
    Accept { text: String },
    /// Wait this long, then try again.
    RetryAfter { delay_ms: u64 },
    /// Give up now.
    Fail,
}

/// The ghost image of a `RetryStep`.
pub enum RetryStepSpec {
    Accept { text: Seq<char> },
    RetryAfter { delay_ms: int },
    Fail,
}

/// The view of a `RetryStep`.
pub open spec fn retry_step_view(r: RetryStep) -> RetryStepSpec {
    match r {
        RetryStep::Accept { text } => RetryStepSpec::Accept { text: text@ },
        RetryStep::RetryAfter { delay_ms } => RetryStepSpec::RetryAfter {
            delay_ms: delay_ms as int,
        },
        RetryStep::Fail => RetryStepSpec::Fail,
    }
}

/// Whether a failed HTTP status may be retried: the rate limit is, and so
/// is everything outside the client-error range; any other client error is
/// the caller's fault and fails at once.
pub open spec fn retriable_status(status: u16) -> bool {
    status == 429 || !(400 <= status && status < 500)
}

/// The delay inserted before attempt number `attempt` (counted from zero):
/// none before the first, then half a second more per attempt.
pub open spec fn backoff_delay_ms(attempt: int) -> int {
    500 * attempt
}

/// What the policy decides when attempt number `attempt` (counted from
/// zero) ends in `outcome`: a success body is accepted trimmed, except that
/// a body trimming to nothing fails at once when `accept_blank_body` is off
/// (the chat clients' rule); a retriable failure waits for the backoff
/// delay while attempts remain and fails when they are spent; any other
/// client error fails at once.
pub open spec fn retry_step_spec(
    attempt: int,
    accept_blank_body: bool,
    outcome: AttemptOutcomeSpec,
) -> RetryStepSpec {
    match outcome {
        AttemptOutcomeSpec::Success { body } => {
            if trim_spec(body).len() > 0 || accept_blank_body {
                RetryStepSpec::Accept { text: trim_spec(body) }
            } else {
                RetryStepSpec::Fail
            }
        },
        AttemptOutcomeSpec::HttpError { status } => {
            if !retriable_status(status) {
                RetryStepSpec::Fail
            } else if attempt + 1 < MAX_RETRIES {
                RetryStepSpec::RetryAfter { delay_ms: backoff_delay_ms(attempt + 1) }
            } else {
                RetryStepSpec::Fail
            }
        },
        AttemptOutcomeSpec::NetworkError => {
            if attempt + 1 < MAX_RETRIES {
                RetryStepSpec::RetryAfter { delay_ms: backoff_delay_ms(attempt + 1) }
            } else {
                RetryStepSpec::Fail
            }
        },
    }
}

/// One request's progress through its attempts.
#[derive(Clone, Copy, Debug)]
pub struct RetrySession {
    /// Attempts completed so far.
    pub attempt: u32,
    /// Whether a body trimming to nothing is still accepted: on for
    /// transcription requests, off for chat requests.
    pub accept_blank_body: bool,
}

impl RetrySession {
    /// A fresh session for a chat-completion request: an empty completion
    /// body is a failure, not a valid cleaned text.
    pub fn for_chat() -> (s: RetrySession)
        ensures
            s.attempt == 0,
            !s.accept_blank_body,
    {
        RetrySession { attempt: 0, accept_blank_body: false }
    }

    /// A fresh session for a transcription request: an empty body is a
    /// valid answer about silent audio, returned trimmed for the pipeline
    /// to reject as no speech.
    pub fn for_transcription() -> (s: RetrySession)
        ensures
            s.attempt == 0,
            s.accept_blank_body,
    {
        RetrySession { attempt: 0, accept_blank_body: true }
    }

    /// Feeds the outcome of the current attempt to the policy and moves to
    /// the next attempt.
    pub fn step(&mut self, outcome: AttemptOutcome) -> (r: RetryStep)
        requires
            old(self).attempt < MAX_RETRIES,
        ensures
            retry_step_view(r) == retry_step_spec(
                old(self).attempt as int,
                old(self).accept_blank_body,
                attempt_outcome_view(outcome),
            ),
            final(self).attempt == old(self).attempt + 1,
            final(self).accept_blank_body == old(self).accept_blank_body,
    {
        let att = self.attempt;
        self.attempt = self.attempt + 1;
        match outcome {
            AttemptOutcome::Success { body } => {
                let chars = str_to_chars(body.as_str());
                let trimmed = trim_chars(&chars);
                if trimmed.len() > 0 || self.accept_blank_body {
                    RetryStep::Accept { text: chars_to_string(&trimmed) }
                } else {
                    RetryStep::Fail
                }
            },
            AttemptOutcome::HttpError { status } => {
                let retriable = status == 429 || !(400 <= status && status < 500);
                if !retriable {
                    RetryStep::Fail
                } else if att + 1 < MAX_RETRIES {
                    RetryStep::RetryAfter { delay_ms: 500 * ((att + 1) as u64) }
                } else {
                    RetryStep::Fail
                }
            },
            AttemptOutcome::NetworkError => {
                if att + 1 < MAX_RETRIES {
                    RetryStep::RetryAfter { delay_ms: 500 * ((att + 1) as u64) }
                } else {
                    RetryStep::Fail
                }
            },
        }
    }
}

/// A provider that is rate-limited on the first two attempts and succeeds
/// on the third yields the third attempt's text after exactly two backoff
/// delays, of 500 and 1000 ms; a provider that answers with any other
/// client error fails immediately, with no retry and no delay. These hold
/// under either blank-body rule. A chat request whose body trims to
/// nothing fails at once, while a transcription request returns the empty
/// transcript for the pipeline to classify.
pub proof fn lemma_retry_policy(body: Seq<char>, blank: Seq<char>, status: u16, accept: bool)
    requires
        trim_spec(body).len() > 0,
        trim_spec(blank).len() == 0,
        400 <= status < 500,
        status != 429,
    ensures
        retry_step_spec(0, accept, AttemptOutcomeSpec::HttpError { status: 429 })
            == (RetryStepSpec::RetryAfter { delay_ms: 500 }),
        retry_step_spec(1, accept, AttemptOutcomeSpec::HttpError { status: 429 })
            == (RetryStepSpec::RetryAfter { delay_ms: 1000 }),
        retry_step_spec(2, accept, AttemptOutcomeSpec::Success { body })
            == (RetryStepSpec::Accept { text: trim_spec(body) }),
        retry_step_spec(0, accept, AttemptOutcomeSpec::HttpError { status })
            == RetryStepSpec::Fail,
        retry_step_spec(0, false, AttemptOutcomeSpec::Success { body: blank })
            == RetryStepSpec::Fail,
        retry_step_spec(0, true, AttemptOutcomeSpec::Success { body: blank })
            == (RetryStepSpec::Accept { text: trim_spec(blank) }),
{
}

} // verus!
