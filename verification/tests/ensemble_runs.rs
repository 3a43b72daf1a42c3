//! Ensemble behaviour: success collection, the single-success shortcut, the
//! fusion invocation, and the labelled raw record.

use ttp_core::credentials::ApiKeys;
use ttp_core::ensemble::{
    collect_successes, plan_ensemble, raw_record, EnsemblePlan, ProviderAttempt, ProviderOutcome,
    ProviderResult,
};
use ttp_core::pipeline::{Action, PasteOutcome, Pipeline, PipelineError};
use ttp_core::settings::{Settings, TranscriptionProvider};

fn settings_ensemble() -> Settings {
    Settings {
        ai_polish_enabled: true,
        ensemble_enabled: true,
        transcription_provider: TranscriptionProvider::Groq,
        shortcut: "Alt+Space".to_string(),
    }
}

fn two_keys() -> ApiKeys {
    ApiKeys {
        openai: Some("ok".to_string()),
        groq: Some("gk".to_string()),
        gladia: None,
    }
}

fn attempt(provider: &str, outcome: ProviderOutcome, latency_ms: u64) -> ProviderAttempt {
    ProviderAttempt { provider: provider.to_string(), outcome, latency_ms }
}

fn completed(provider: &str, text: &str, latency_ms: u64) -> ProviderAttempt {
    attempt(provider, ProviderOutcome::Completed { text: text.to_string() }, latency_ms)
}

#[test]
fn collect_keeps_only_nonblank_completions_trimmed() {
    let results = collect_successes(vec![
        completed("OpenAI", "  hello world ", 120),
        attempt("Groq", ProviderOutcome::TimedOut, 30_000),
        completed("Gladia", "   ", 900),
        attempt("Gladia", ProviderOutcome::Failed, 10),
    ]);
    assert_eq!(results.len(), 1);
    assert_eq!(results[0].provider, "OpenAI");
    assert_eq!(results[0].text, "hello world");
    assert_eq!(results[0].latency_ms, 120);
}

#[test]
fn raw_record_labels_every_success() {
    let results = vec![
        ProviderResult { provider: "OpenAI".to_string(), text: "hello".to_string(), latency_ms: 1 },
        ProviderResult { provider: "Groq".to_string(), text: "world".to_string(), latency_ms: 2 },
    ];
    assert_eq!(raw_record(&results), "[OpenAI]: hello\n\n[Groq]: world");
}

#[test]
fn plan_ensemble_paths() {
    assert!(matches!(plan_ensemble(vec![]), EnsemblePlan::AllFailed));

    let one = vec![ProviderResult {
        provider: "Groq".to_string(),
        text: "hello world".to_string(),
        latency_ms: 5,
    }];
    match plan_ensemble(one) {
        EnsemblePlan::PolishSingle { text, raw_record } => {
            assert_eq!(text, "hello world");
            assert_eq!(raw_record, "[Groq]: hello world");
        }
        _ => panic!("single-success path expected"),
    }

    let two = vec![
        ProviderResult { provider: "OpenAI".to_string(), text: "a".to_string(), latency_ms: 1 },
        ProviderResult { provider: "Groq".to_string(), text: "b".to_string(), latency_ms: 2 },
    ];
    match plan_ensemble(two) {
        EnsemblePlan::Fuse { results, .. } => assert_eq!(results.len(), 2),
        _ => panic!("fusion path expected"),
    }
}

#[test]
fn one_success_one_timeout_runs_polish_only() {
    // Providers A (success, "hello world") and B (timeout): no fusion call
    // is made; only polish runs on "hello world", as in single-provider
    // mode.
    let (mut p, _) = Pipeline::start(settings_ensemble(), two_keys(), "rec.wav".to_string());
    let a1 = p.on_audio_size(Some(50_000));
    assert!(matches!(a1[1], Action::RunEnsemble { .. }));

    let a2 = p.on_ensemble_outcomes(vec![
        completed("OpenAI", "hello world", 100),
        attempt("Groq", ProviderOutcome::TimedOut, 30_000),
    ]);
    assert!(a2.iter().all(|a| !matches!(a, Action::RunFusion { .. })));
    let polish_calls: Vec<_> =
        a2.iter().filter(|a| matches!(a, Action::RunPolish { .. })).collect();
    assert_eq!(polish_calls.len(), 1);
    assert!(matches!(&a2[1], Action::RunPolish { api_key, text }
        if api_key == "ok" && text == "hello world"));
}

#[test]
fn two_successes_invoke_fusion_exactly_once_with_all_results() {
    let (mut p, _) = Pipeline::start(settings_ensemble(), two_keys(), "rec.wav".to_string());
    p.on_audio_size(Some(50_000));
    let a2 = p.on_ensemble_outcomes(vec![
        completed("OpenAI", "the quick brown fox", 100),
        completed("Groq", "the quack brown fox", 80),
    ]);
    let fusion_calls: Vec<_> =
        a2.iter().filter(|a| matches!(a, Action::RunFusion { .. })).collect();
    assert_eq!(fusion_calls.len(), 1);
    match &a2[1] {
        Action::RunFusion { api_key, results } => {
            assert_eq!(api_key, "ok");
            assert_eq!(results.len(), 2);
            assert_eq!(results[0].provider, "OpenAI");
            assert_eq!(results[0].text, "the quick brown fox");
            assert_eq!(results[1].provider, "Groq");
            assert_eq!(results[1].text, "the quack brown fox");
        }
        _ => panic!("fusion call expected"),
    }
}

#[test]
fn all_providers_failing_ends_the_run() {
    let (mut p, _) = Pipeline::start(settings_ensemble(), two_keys(), "rec.wav".to_string());
    p.on_audio_size(Some(50_000));
    let a2 = p.on_ensemble_outcomes(vec![
        attempt("OpenAI", ProviderOutcome::Failed, 10),
        attempt("Groq", ProviderOutcome::TimedOut, 30_000),
    ]);
    assert!(matches!(p.result(), Some(Err(PipelineError::AllProvidersFailed))));
    assert_eq!(a2.iter().filter(|a| matches!(a, Action::SetIdle)).count(), 1);
}

#[test]
fn fusion_failure_surfaces_as_ensemble_error() {
    let (mut p, _) = Pipeline::start(settings_ensemble(), two_keys(), "rec.wav".to_string());
    p.on_audio_size(Some(50_000));
    p.on_ensemble_outcomes(vec![
        completed("OpenAI", "the quick brown fox", 100),
        completed("Groq", "the quack brown fox", 80),
    ]);
    let a3 = p.on_fusion_outcome(Err("Fusion API error: 500 - ".to_string()));
    match p.result() {
        Some(Err(PipelineError::FusionFailed { detail })) => {
            assert_eq!(detail, "Fusion API error: 500 - ")
        }
        _ => panic!("fusion failure expected"),
    }
    assert_eq!(a3.iter().filter(|a| matches!(a, Action::SetIdle)).count(), 1);
}

#[test]
fn fused_hallucination_is_rejected() {
    let (mut p, _) = Pipeline::start(settings_ensemble(), two_keys(), "rec.wav".to_string());
    p.on_audio_size(Some(50_000));
    p.on_ensemble_outcomes(vec![
        completed("OpenAI", "thank you", 100),
        completed("Groq", "thank you.", 80),
    ]);
    p.on_fusion_outcome(Ok("Thank you.".to_string()));
    assert!(matches!(p.result(), Some(Err(PipelineError::HallucinatedTranscript))));
}

#[test]
fn ensemble_run_keeps_labelled_raw_record_in_history() {
    let (mut p, _) = Pipeline::start(settings_ensemble(), two_keys(), "rec.wav".to_string());
    p.on_audio_size(Some(50_000));
    p.on_ensemble_outcomes(vec![
        completed("OpenAI", "the quick brown fox", 100),
        completed("Groq", "the quack brown fox", 80),
    ]);
    p.on_fusion_outcome(Ok("The quick brown fox.".to_string()));
    p.on_clipboard_write(true);
    let a5 = p.on_paste_outcome(PasteOutcome::Pasted);
    assert!(matches!(&a5[3], Action::PersistHistory { text, raw: Some(raw) }
        if text == "The quick brown fox."
            && raw == "[OpenAI]: the quick brown fox\n\n[Groq]: the quack brown fox"));
}

#[test]
fn single_ensemble_success_polish_misfire_falls_back_then_filters() {
    // The one success is "thank you" — a hallucination; the polish fallback
    // hands it on, and the ensemble path's final filter rejects it.
    let (mut p, _) = Pipeline::start(settings_ensemble(), two_keys(), "rec.wav".to_string());
    p.on_audio_size(Some(50_000));
    p.on_ensemble_outcomes(vec![
        completed("OpenAI", "thank you", 100),
        attempt("Groq", ProviderOutcome::Failed, 10),
    ]);
    p.on_polish_outcome(Err("Polish request failed".to_string()));
    assert!(matches!(p.result(), Some(Err(PipelineError::HallucinatedTranscript))));
}
