//! Retry policy behaviour: backoff schedule, rate-limit retries, immediate
//! client-error failure, and the empty-body rule.

use ttp_core::retry::{AttemptOutcome, RetrySession, RetryStep};

#[test]
fn rate_limited_twice_then_success_yields_third_text_after_two_delays() {
    let mut s = RetrySession::for_chat();
    let step1 = s.step(AttemptOutcome::HttpError { status: 429 });
    assert!(matches!(step1, RetryStep::RetryAfter { delay_ms: 500 }));
    let step2 = s.step(AttemptOutcome::HttpError { status: 429 });
    assert!(matches!(step2, RetryStep::RetryAfter { delay_ms: 1000 }));
    let step3 = s.step(AttemptOutcome::Success { body: "  hello world  ".to_string() });
    match step3 {
        RetryStep::Accept { text } => assert_eq!(text, "hello world"),
        _ => panic!("third attempt's text expected"),
    }
}

#[test]
fn client_error_fails_immediately_with_no_retry() {
    let mut s = RetrySession::for_chat();
    let step = s.step(AttemptOutcome::HttpError { status: 400 });
    assert!(matches!(step, RetryStep::Fail));
    assert_eq!(s.attempt, 1);
}

#[test]
fn other_client_errors_fail_immediately_too() {
    for status in [401u16, 403, 404, 422] {
        let mut s = RetrySession::for_chat();
        assert!(matches!(s.step(AttemptOutcome::HttpError { status }), RetryStep::Fail));
    }
}

#[test]
fn server_errors_and_network_failures_are_retried_until_spent() {
    let mut s = RetrySession::for_chat();
    assert!(matches!(
        s.step(AttemptOutcome::HttpError { status: 500 }),
        RetryStep::RetryAfter { delay_ms: 500 }
    ));
    assert!(matches!(s.step(AttemptOutcome::NetworkError), RetryStep::RetryAfter {
        delay_ms: 1000
    }));
    // The third attempt is the last: a further failure gives up.
    assert!(matches!(s.step(AttemptOutcome::HttpError { status: 503 }), RetryStep::Fail));
}

#[test]
fn empty_completion_body_is_a_failure() {
    let mut s = RetrySession::for_chat();
    let step = s.step(AttemptOutcome::Success { body: "   \n ".to_string() });
    assert!(matches!(step, RetryStep::Fail));
}

#[test]
fn empty_transcription_body_is_accepted_for_the_pipeline_to_classify() {
    // An empty transcript is the provider's answer about silent audio: the
    // transcription client hands it on, and the pipeline itself rejects it
    // as "no speech detected".
    let mut s = RetrySession::for_transcription();
    match s.step(AttemptOutcome::Success { body: "   \n ".to_string() }) {
        RetryStep::Accept { text } => assert_eq!(text, ""),
        _ => panic!("blank transcript expected to be accepted"),
    }
    // The failure rules are shared: a client error still fails at once.
    let mut s = RetrySession::for_transcription();
    assert!(matches!(s.step(AttemptOutcome::HttpError { status: 400 }), RetryStep::Fail));
}

#[test]
fn success_on_first_attempt_is_trimmed_and_accepted() {
    let mut s = RetrySession::for_chat();
    match s.step(AttemptOutcome::Success { body: "\n Final text. \t".to_string() }) {
        RetryStep::Accept { text } => assert_eq!(text, "Final text."),
        _ => panic!("acceptance expected"),
    }
}
