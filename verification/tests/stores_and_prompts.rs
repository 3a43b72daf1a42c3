//! Store models, prompt construction, key resolution, the polling decision,
//! and the text utilities.

use ttp_core::credentials::{resolve_api_key, usable_key, ApiKeys};
use ttp_core::dictionary::{remove_entry, upsert_entry, DictionaryEntry};
use ttp_core::history::{prepend_entry, sort_newest_first_exec, HistoryEntry};
use ttp_core::pipeline::{stage_name, Stage, TranscriptionProgress};
use ttp_core::prompts::{
    build_fusion_prompt, build_polish_prompt, DICTIONARY_HEADER, FUSION_PROMPT_CLOSE,
    FUSION_PROMPT_INTRO, POLISH_SYSTEM_PROMPT,
};
use ttp_core::providers::{get_provider_config, poll_step, PollDecision};
use ttp_core::ensemble::ProviderResult;
use ttp_core::settings::{default_shortcut, Settings, TranscriptionProvider};
use ttp_core::text::u64_to_string;

fn entry(original: &str, correction: &str, created_at: i64) -> DictionaryEntry {
    DictionaryEntry {
        original: original.to_string(),
        correction: correction.to_string(),
        created_at,
    }
}

#[test]
fn upsert_appends_new_and_replaces_existing() {
    let mut entries = vec![entry("teh", "the", 1)];
    upsert_entry(&mut entries, "john", "John", 2);
    assert_eq!(entries.len(), 2);
    assert_eq!(entries[1].original, "john");
    assert_eq!(entries[1].correction, "John");

    // Same key again: last write wins, in place.
    upsert_entry(&mut entries, "john", "Jon", 3);
    assert_eq!(entries.len(), 2);
    assert_eq!(entries[1].correction, "Jon");
    assert_eq!(entries[1].created_at, 3);
    assert_eq!(entries[0].original, "teh");
}

#[test]
fn remove_entry_deletes_by_key_and_reports_missing() {
    let mut entries = vec![entry("teh", "the", 1), entry("john", "John", 2)];
    assert!(remove_entry(&mut entries, "teh"));
    assert_eq!(entries.len(), 1);
    assert_eq!(entries[0].original, "john");
    assert!(!remove_entry(&mut entries, "absent"));
    assert_eq!(entries.len(), 1);
}

#[test]
fn history_prepends_newest_first() {
    let mut hist = vec![HistoryEntry { text: "older".to_string(), timestamp: 10, raw_text: None }];
    prepend_entry(
        &mut hist,
        HistoryEntry { text: "newer".to_string(), timestamp: 20, raw_text: Some("raw".to_string()) },
    );
    assert_eq!(hist.len(), 2);
    assert_eq!(hist[0].text, "newer");
    assert_eq!(hist[1].text, "older");
}

#[test]
fn history_reading_sorts_newest_first() {
    let mut hist = vec![
        HistoryEntry { text: "b".to_string(), timestamp: 5, raw_text: None },
        HistoryEntry { text: "c".to_string(), timestamp: 30, raw_text: None },
        HistoryEntry { text: "a".to_string(), timestamp: 1, raw_text: None },
        HistoryEntry { text: "d".to_string(), timestamp: 30, raw_text: None },
    ];
    sort_newest_first_exec(&mut hist);
    let stamps: Vec<i64> = hist.iter().map(|e| e.timestamp).collect();
    assert_eq!(stamps, vec![30, 30, 5, 1]);
    assert_eq!(hist.len(), 4);
}

#[test]
fn environment_key_beats_stored_key() {
    let r = resolve_api_key(Some("env-key".to_string()), Some("stored".to_string()));
    assert_eq!(r, Some("env-key".to_string()));
    // A blank environment value falls back to the store.
    let r = resolve_api_key(Some("".to_string()), Some("stored".to_string()));
    assert_eq!(r, Some("stored".to_string()));
    let r = resolve_api_key(None, None);
    assert_eq!(r, None);
}

#[test]
fn blank_keys_are_unusable_and_uncounted() {
    assert_eq!(usable_key(Some("".to_string())), None);
    assert_eq!(usable_key(Some("k".to_string())), Some("k".to_string()));
    let keys = ApiKeys {
        openai: Some("a".to_string()),
        groq: Some("".to_string()),
        gladia: None,
    };
    let usable = keys.usable();
    assert_eq!(usable.provider_count(), 1);
}

#[test]
fn polish_prompt_is_bare_without_dictionary() {
    assert_eq!(build_polish_prompt(&[]), POLISH_SYSTEM_PROMPT);
}

#[test]
fn polish_prompt_appends_dictionary_block() {
    let dict = vec![entry("john", "John", 1), entry("gladia", "Gladia", 2)];
    let expected = format!(
        "{}{}- john -> John\n- gladia -> Gladia\n",
        POLISH_SYSTEM_PROMPT, DICTIONARY_HEADER
    );
    assert_eq!(build_polish_prompt(&dict), expected);
}

#[test]
fn fusion_prompt_labels_each_result_with_latency() {
    let results = vec![
        ProviderResult { provider: "OpenAI".to_string(), text: "hello".to_string(), latency_ms: 123 },
        ProviderResult { provider: "Groq".to_string(), text: "hallo".to_string(), latency_ms: 47 },
    ];
    let expected = format!(
        "{}=== OpenAI (123ms) ===\nhello\n\n=== Groq (47ms) ===\nhallo\n\n{}",
        FUSION_PROMPT_INTRO, FUSION_PROMPT_CLOSE
    );
    assert_eq!(build_fusion_prompt(&results, &[]), expected);

    let dict = vec![entry("hallo", "hello", 1)];
    let with_dict = build_fusion_prompt(&results, &dict);
    assert_eq!(
        with_dict,
        format!("{}{}- hallo -> hello\n", expected, DICTIONARY_HEADER)
    );
}

#[test]
fn provider_config_gives_endpoint_and_model() {
    let (url, model) = get_provider_config(TranscriptionProvider::OpenAI);
    assert_eq!(url, "https://api.openai.com/v1/audio/transcriptions");
    assert_eq!(model, "gpt-4o-transcribe");
    let (url, model) = get_provider_config(TranscriptionProvider::Groq);
    assert_eq!(url, "https://api.groq.com/openai/v1/audio/transcriptions");
    assert_eq!(model, "whisper-large-v3");
    // The polling provider has its own lifecycle; its fallback here is the
    // faster multipart provider.
    let (url, model) = get_provider_config(TranscriptionProvider::Gladia);
    assert_eq!(url, "https://api.groq.com/openai/v1/audio/transcriptions");
    assert_eq!(model, "whisper-large-v3");
}

#[test]
fn poll_step_decisions() {
    match poll_step("done", Some("  the text  ".to_string()), 3) {
        PollDecision::Finished { transcript } => assert_eq!(transcript, "the text"),
        _ => panic!("finished expected"),
    }
    assert!(matches!(poll_step("done", None, 3), PollDecision::Failed));
    assert!(matches!(poll_step("error", Some("x".to_string()), 0), PollDecision::Failed));
    assert!(matches!(poll_step("processing", None, 0), PollDecision::ContinueAfterDelay));
    assert!(matches!(poll_step("queued", None, 28), PollDecision::ContinueAfterDelay));
    assert!(matches!(poll_step("processing", None, 29), PollDecision::TimedOut));
}

#[test]
fn settings_defaults() {
    let s = Settings::default();
    assert!(s.ai_polish_enabled);
    assert!(!s.ensemble_enabled);
    assert_eq!(s.transcription_provider, TranscriptionProvider::Groq);
    assert_eq!(s.shortcut, "Alt+Space");
    assert_eq!(default_shortcut(), "Alt+Space");
}

#[test]
fn progress_payload_uses_stage_tags() {
    assert_eq!(stage_name(Stage::Transcribing), "transcribing");
    assert_eq!(stage_name(Stage::Polishing), "polishing");
    assert_eq!(stage_name(Stage::Pasting), "pasting");
    assert_eq!(stage_name(Stage::Complete), "complete");
    assert_eq!(stage_name(Stage::Error), "error");
    let p = TranscriptionProgress::new(Stage::Error, "No speech detected".to_string());
    assert_eq!(p.stage, "error");
    assert_eq!(p.message, "No speech detected");
}

#[test]
fn decimal_rendering_is_exact() {
    assert_eq!(u64_to_string(0), "0");
    assert_eq!(u64_to_string(7), "7");
    assert_eq!(u64_to_string(30000), "30000");
    assert_eq!(u64_to_string(18446744073709551615), "18446744073709551615");
}
