//! Whole pipeline runs, branch by branch: early rejections, the single and
//! ensemble paths, polish fallback, the paste stage and the clipboard
//! discipline, and the one-Idle-per-run guarantee.

use ttp_core::credentials::ApiKeys;
use ttp_core::pipeline::{
    is_hallucination, Action, PasteOutcome, Phase, Pipeline, PipelineError, Stage,
};
use ttp_core::settings::{Settings, TranscriptionProvider};

fn settings(polish: bool, ensemble: bool, provider: TranscriptionProvider) -> Settings {
    Settings {
        ai_polish_enabled: polish,
        ensemble_enabled: ensemble,
        transcription_provider: provider,
        shortcut: "Alt+Space".to_string(),
    }
}

fn keys(openai: Option<&str>, groq: Option<&str>, gladia: Option<&str>) -> ApiKeys {
    ApiKeys {
        openai: openai.map(|s| s.to_string()),
        groq: groq.map(|s| s.to_string()),
        gladia: gladia.map(|s| s.to_string()),
    }
}

fn idle_count(actions: &[Action]) -> usize {
    actions.iter().filter(|a| matches!(a, Action::SetIdle)).count()
}

fn provider_calls(actions: &[Action]) -> usize {
    actions
        .iter()
        .filter(|a| {
            matches!(
                a,
                Action::RunEnsemble { .. }
                    | Action::RunTranscription { .. }
                    | Action::RunPolish { .. }
                    | Action::RunFusion { .. }
            )
        })
        .count()
}

/// A mock of the system clipboard, driven by the pipeline's actions.
fn apply_clipboard(actions: &[Action], snapshot: &Option<String>, clip: &mut String) {
    for a in actions {
        match a {
            Action::WriteClipboard { text } => *clip = text.clone(),
            Action::RestoreClipboard => {
                if let Some(s) = snapshot {
                    *clip = s.clone();
                }
            }
            _ => {}
        }
    }
}

#[test]
fn small_audio_rejected_before_any_provider_call() {
    let (mut p, start_actions) =
        Pipeline::start(settings(true, false, TranscriptionProvider::Groq), keys(Some("k1"), Some("k2"), None), "rec.wav".to_string());
    assert!(matches!(start_actions[0], Action::SetProcessing));
    let actions = p.on_audio_size(Some(9_999));
    assert_eq!(provider_calls(&actions), 0);
    assert_eq!(idle_count(&start_actions) + idle_count(&actions), 1);
    assert_eq!(p.phase, Phase::Done);
    assert!(matches!(p.result(), Some(Err(PipelineError::AudioTooShort))));
}

#[test]
fn missing_audio_file_rejected() {
    let (mut p, _) =
        Pipeline::start(settings(true, false, TranscriptionProvider::Groq), keys(Some("k"), None, None), "rec.wav".to_string());
    let actions = p.on_audio_size(None);
    assert_eq!(provider_calls(&actions), 0);
    assert_eq!(idle_count(&actions), 1);
    assert!(matches!(p.result(), Some(Err(PipelineError::AudioMissing))));
}

#[test]
fn missing_provider_key_fails_with_named_provider() {
    let (mut p, _) =
        Pipeline::start(settings(false, false, TranscriptionProvider::Gladia), keys(Some("k"), None, None), "rec.wav".to_string());
    let actions = p.on_audio_size(Some(50_000));
    assert!(matches!(
        p.result(),
        Some(Err(PipelineError::MissingTranscriptionKey { provider: TranscriptionProvider::Gladia }))
    ));
    match &actions[0] {
        Action::Progress { stage, message } => {
            assert_eq!(*stage, Stage::Error);
            assert_eq!(message, "No Gladia API key configured");
        }
        _ => panic!("error progress expected"),
    }
    match &actions[1] {
        Action::Notify { message } => {
            assert_eq!(message, "Please set your Gladia API key in settings")
        }
        _ => panic!("notification expected"),
    }
    assert_eq!(idle_count(&actions), 1);
}

#[test]
fn polish_without_openai_key_fails_early() {
    let (mut p, _) =
        Pipeline::start(settings(true, false, TranscriptionProvider::Groq), keys(None, Some("gk"), None), "rec.wav".to_string());
    let actions = p.on_audio_size(Some(50_000));
    assert!(matches!(p.result(), Some(Err(PipelineError::MissingPolishKey))));
    assert_eq!(provider_calls(&actions), 0);
    assert_eq!(idle_count(&actions), 1);
}

#[test]
fn single_provider_run_without_polish_reaches_paste() {
    let (mut p, start_actions) =
        Pipeline::start(settings(false, false, TranscriptionProvider::Groq), keys(None, Some("gk"), None), "rec.wav".to_string());
    let mut idles = idle_count(&start_actions);

    let a1 = p.on_audio_size(Some(50_000));
    idles += idle_count(&a1);
    match &a1[1] {
        Action::RunTranscription { provider, api_key, audio_path } => {
            assert_eq!(*provider, TranscriptionProvider::Groq);
            assert_eq!(api_key, "gk");
            assert_eq!(audio_path, "rec.wav");
        }
        _ => panic!("transcription call expected"),
    }

    let a2 = p.on_single_transcription(Ok("it is sunny in the park today".to_string()));
    idles += idle_count(&a2);
    assert!(matches!(&a2[1], Action::WriteClipboard { text } if text == "it is sunny in the park today"));

    let a3 = p.on_clipboard_write(true);
    idles += idle_count(&a3);
    assert!(matches!(a3[0], Action::AttemptPaste));

    let a4 = p.on_paste_outcome(PasteOutcome::Failed);
    idles += idle_count(&a4);
    assert!(matches!(&a4[1], Action::Notify { message } if message == "Text copied - paste with Cmd+V"));
    // No raw text is kept when neither polish nor ensemble could have
    // altered the transcript.
    assert!(matches!(&a4[0], Action::PersistHistory { raw: None, .. }));

    // The state returns to Idle exactly once over the whole run.
    assert_eq!(idles, 1);
    match p.result() {
        Some(Ok(text)) => assert_eq!(text, "it is sunny in the park today"),
        _ => panic!("final text expected"),
    }
}

#[test]
fn successful_paste_restores_clipboard_and_schedules_corrections() {
    let (mut p, _) =
        Pipeline::start(settings(false, false, TranscriptionProvider::Groq), keys(None, Some("gk"), None), "rec.wav".to_string());
    let snapshot = Some("previous clipboard".to_string());
    let mut clip = "previous clipboard".to_string();

    p.on_audio_size(Some(50_000));
    let a2 = p.on_single_transcription(Ok("it is sunny in the park today".to_string()));
    apply_clipboard(&a2, &snapshot, &mut clip);
    assert_eq!(clip, "it is sunny in the park today");
    p.on_clipboard_write(true);
    let a4 = p.on_paste_outcome(PasteOutcome::Pasted);
    assert!(matches!(a4[0], Action::SettleDelay { ms: 150 }));
    assert!(matches!(a4[1], Action::RestoreClipboard));
    assert!(matches!(&a4[2], Action::ScheduleCorrectionWindow { text, delay_ms: 10_000 }
        if text == "it is sunny in the park today"));
    apply_clipboard(&a4, &snapshot, &mut clip);
    // After the successful paste the clipboard holds the original again.
    assert_eq!(clip, "previous clipboard");
}

#[test]
fn failed_paste_leaves_final_text_on_clipboard() {
    let (mut p, _) =
        Pipeline::start(settings(false, false, TranscriptionProvider::Groq), keys(None, Some("gk"), None), "rec.wav".to_string());
    let snapshot = Some("previous clipboard".to_string());
    let mut clip = "previous clipboard".to_string();

    p.on_audio_size(Some(50_000));
    let a2 = p.on_single_transcription(Ok("it is sunny in the park today".to_string()));
    apply_clipboard(&a2, &snapshot, &mut clip);
    p.on_clipboard_write(true);
    let a4 = p.on_paste_outcome(PasteOutcome::Failed);
    apply_clipboard(&a4, &snapshot, &mut clip);
    // The final transcribed text, not the pre-pipeline original, stays.
    assert_eq!(clip, "it is sunny in the park today");
}

#[test]
fn missing_permission_skips_restore_and_names_the_fix() {
    let (mut p, _) =
        Pipeline::start(settings(false, false, TranscriptionProvider::Groq), keys(None, Some("gk"), None), "rec.wav".to_string());
    p.on_audio_size(Some(50_000));
    p.on_single_transcription(Ok("it is sunny in the park today".to_string()));
    p.on_clipboard_write(true);
    let a4 = p.on_paste_outcome(PasteOutcome::NoPermission);
    assert!(a4.iter().all(|a| !matches!(a, Action::RestoreClipboard)));
    assert!(matches!(&a4[1], Action::Notify { message }
        if message == "Add TTP to Accessibility in Settings, then paste with Cmd+V"));
    assert!(matches!(p.result(), Some(Ok(_))));
}

#[test]
fn hallucinated_transcript_is_rejected() {
    // "Thank you." is valid text, but on silent audio it is a known model
    // hallucination: it must be rejected as "no speech detected".
    assert!(is_hallucination("Thank you."));

    let (mut p, _) =
        Pipeline::start(settings(false, false, TranscriptionProvider::Groq), keys(None, Some("gk"), None), "rec.wav".to_string());
    p.on_audio_size(Some(50_000));
    let actions = p.on_single_transcription(Ok("Thank you.".to_string()));
    assert!(matches!(p.result(), Some(Err(PipelineError::HallucinatedTranscript))));
    match &actions[0] {
        Action::Progress { stage, message } => {
            assert_eq!(*stage, Stage::Error);
            assert_eq!(message, "No speech detected");
        }
        _ => panic!("error progress expected"),
    }
    assert_eq!(idle_count(&actions), 1);
}

#[test]
fn hallucination_filter_cases() {
    assert!(is_hallucination("thank you"));
    assert!(is_hallucination("  THANKS FOR WATCHING!".trim_end_matches('!')));
    assert!(is_hallucination("Bye..."));
    assert!(is_hallucination("."));
    assert!(is_hallucination(""));
    assert!(is_hallucination("   "));
    assert!(is_hallucination("The End"));
    assert!(!is_hallucination("thank you very much for the meeting notes"));
    assert!(!is_hallucination("Hello world"));
}

#[test]
fn empty_and_short_transcripts_are_rejected() {
    let (mut p, _) =
        Pipeline::start(settings(false, false, TranscriptionProvider::Groq), keys(None, Some("gk"), None), "a.wav".to_string());
    p.on_audio_size(Some(50_000));
    let actions = p.on_single_transcription(Ok("   ".to_string()));
    assert!(matches!(p.result(), Some(Err(PipelineError::EmptyTranscript))));
    assert_eq!(idle_count(&actions), 1);

    let (mut p2, _) =
        Pipeline::start(settings(false, false, TranscriptionProvider::Groq), keys(None, Some("gk"), None), "a.wav".to_string());
    p2.on_audio_size(Some(50_000));
    let actions = p2.on_single_transcription(Ok(" short it ".to_string()));
    assert!(matches!(p2.result(), Some(Err(PipelineError::TranscriptTooShort))));
    assert_eq!(idle_count(&actions), 1);
}

#[test]
fn provider_error_ends_run_with_detail() {
    let (mut p, _) =
        Pipeline::start(settings(false, false, TranscriptionProvider::Groq), keys(None, Some("gk"), None), "a.wav".to_string());
    p.on_audio_size(Some(50_000));
    let actions = p.on_single_transcription(Err("Transcription API error: 500".to_string()));
    match p.result() {
        Some(Err(PipelineError::ProviderFailed { detail })) => {
            assert_eq!(detail, "Transcription API error: 500")
        }
        _ => panic!("provider failure expected"),
    }
    assert!(matches!(&actions[0], Action::Progress { message, .. }
        if message == "Transcription failed: Transcription API error: 500"));
    assert_eq!(idle_count(&actions), 1);
}

#[test]
fn clipboard_write_failure_is_fatal() {
    let (mut p, _) =
        Pipeline::start(settings(false, false, TranscriptionProvider::Groq), keys(None, Some("gk"), None), "a.wav".to_string());
    p.on_audio_size(Some(50_000));
    p.on_single_transcription(Ok("it is sunny in the park today".to_string()));
    let actions = p.on_clipboard_write(false);
    assert!(matches!(p.result(), Some(Err(PipelineError::ClipboardWriteFailed))));
    assert_eq!(idle_count(&actions), 1);
}

#[test]
fn polish_outcome_is_applied_and_raw_kept_for_history() {
    let (mut p, _) =
        Pipeline::start(settings(true, false, TranscriptionProvider::Groq), keys(Some("ok"), Some("gk"), None), "a.wav".to_string());
    p.on_audio_size(Some(50_000));
    let a2 = p.on_single_transcription(Ok("um so the meeting is on tuesday".to_string()));
    assert!(matches!(&a2[1], Action::RunPolish { api_key, text }
        if api_key == "ok" && text == "um so the meeting is on tuesday"));
    let a3 = p.on_polish_outcome(Ok("The meeting is on Tuesday.".to_string()));
    assert!(matches!(&a3[1], Action::WriteClipboard { text } if text == "The meeting is on Tuesday."));
    p.on_clipboard_write(true);
    let a5 = p.on_paste_outcome(PasteOutcome::Pasted);
    assert!(matches!(&a5[3], Action::PersistHistory { text, raw: Some(raw) }
        if text == "The meeting is on Tuesday." && raw == "um so the meeting is on tuesday"));
}

#[test]
fn polish_failure_falls_back_to_raw_text() {
    let (mut p, _) =
        Pipeline::start(settings(true, false, TranscriptionProvider::Groq), keys(Some("ok"), Some("gk"), None), "a.wav".to_string());
    p.on_audio_size(Some(50_000));
    p.on_single_transcription(Ok("um so the meeting is on tuesday".to_string()));
    let a3 = p.on_polish_outcome(Err("Polish API error: 500 - ".to_string()));
    assert!(matches!(&a3[1], Action::WriteClipboard { text }
        if text == "um so the meeting is on tuesday"));
    assert!(matches!(p.phase, Phase::AwaitClipboard));
}

#[test]
fn deflecting_polish_output_falls_back_to_raw_text() {
    let (mut p, _) =
        Pipeline::start(settings(true, false, TranscriptionProvider::Groq), keys(Some("ok"), Some("gk"), None), "a.wav".to_string());
    p.on_audio_size(Some(50_000));
    p.on_single_transcription(Ok("um so the meeting is on tuesday".to_string()));
    let a3 = p.on_polish_outcome(Ok(
        "I'm sorry, could you please provide the transcription you'd like me to clean?".to_string(),
    ));
    assert!(matches!(&a3[1], Action::WriteClipboard { text }
        if text == "um so the meeting is on tuesday"));
}

#[test]
fn implausibly_long_polish_output_falls_back_to_raw_text() {
    let (mut p, _) =
        Pipeline::start(settings(true, false, TranscriptionProvider::Groq), keys(Some("ok"), Some("gk"), None), "a.wav".to_string());
    p.on_audio_size(Some(50_000));
    p.on_single_transcription(Ok("short valid text".to_string()));
    let long = "x".repeat(200);
    let a3 = p.on_polish_outcome(Ok(long));
    assert!(matches!(&a3[1], Action::WriteClipboard { text } if text == "short valid text"));
}
