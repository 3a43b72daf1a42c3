//! The recording-to-paste pipeline: one linear run from a captured audio
//! file to pasted text, with every early exit resetting the recording state
//! to Idle exactly once. The pipeline is a state machine over plain values:
//! each step consumes the outcome of one outside operation (a file size, a
//! provider call, a paste attempt) and returns the actions the surrounding
//! process must perform next.

use vstd::prelude::*;
use crate::credentials::ApiKeys;
use crate::ensemble::{
    ProviderResult, ProviderAttempt, collect_successes, plan_ensemble, EnsemblePlan, successes_of,
    results_view, raw_record_spec,
};
use crate::settings::{Settings, TranscriptionProvider};
use crate::text::{
    trim_spec, lower_seq, trim_end_dots, contains_seq, trim_chars, lower_chars,
    trim_end_dots_chars, str_to_chars, chars_eq, contains_chars,
};

verus! {

/// Audio files smaller than this are treated as empty or silent recordings
/// and rejected before any provider is called.
pub const MIN_AUDIO_SIZE: u64 = 10000;

/// A single-provider transcript shorter than this after trimming is
/// rejected, so a cleanup model never sees near-empty input.
pub const MIN_MEANINGFUL_LEN: usize = 10;

/// How long after a successful paste the clipboard is left alone before the
/// original content is restored, in milliseconds.
pub const SETTLE_DELAY_MS: u64 = 150;

/// How long after a successful paste the correction detector waits before
/// reading the clipboard, in milliseconds.
pub const CORRECTION_WINDOW_MS: u64 = 10000;

/// The pipeline milestones reported to the observer.
#[derive(Clone, Copy, Debug, PartialEq, Eq, Structural)]
pub enum Stage {
    Transcribing,
    Polishing,
    Pasting,
    Complete,
    Error,
}

/// The tag the observer sees for each stage.
pub open spec fn stage_name_spec(stage: Stage) -> Seq<char> {
    match stage {
        Stage::Transcribing => "transcribing"@,
        Stage::Polishing => "polishing"@,
        Stage::Pasting => "pasting"@,
        Stage::Complete => "complete"@,
        Stage::Error => "error"@,
    }
}

/// Renders a stage tag.
pub fn stage_name(stage: Stage) -> (r: String)
    ensures
        r@ == stage_name_spec(stage),
{
    match stage {
        Stage::Transcribing => String::from_str("transcribing"),
        Stage::Polishing => String::from_str("polishing"),
        Stage::Pasting => String::from_str("pasting"),
        Stage::Complete => String::from_str("complete"),
        Stage::Error => String::from_str("error"),
    }
}

/// The progress payload sent to the observer at each milestone.
#[derive(Clone, Debug)]
pub struct TranscriptionProgress {
    /// One of "transcribing", "polishing", "pasting", "complete", "error".
    pub stage: String,
    pub message: String,
}

impl TranscriptionProgress {
    /// Builds the payload for a milestone.
    pub fn new(stage: Stage, message: String) -> (p: TranscriptionProgress)
        ensures
            p.stage@ == stage_name_spec(stage),
            p.message == message,
    {
        TranscriptionProgress { stage: stage_name(stage), message }
    }
}

/// Why a pipeline run ended without pasted text.
#[derive(Clone, Debug)]
pub enum PipelineError {
    /// The audio file could not be read.
    AudioMissing,
    /// The audio file is below the minimum size.
    AudioTooShort,
    /// The configured transcription provider has no API key.
    MissingTranscriptionKey { provider: TranscriptionProvider },
    /// Polish or fusion needs the OpenAI key, and none is configured.
    MissingPolishKey,
    /// The single configured provider failed; the payload is its error.
    ProviderFailed { detail: String },
    /// Every ensemble provider failed, timed out or returned a blank text.
    AllProvidersFailed,
    /// The transcript was empty after trimming.
    EmptyTranscript,
    /// The transcript matched a known silent-audio hallucination.
    HallucinatedTranscript,
    /// The trimmed transcript was too short to be meaningful.
    TranscriptTooShort,
    /// Fusion failed after retries; the payload is its error.
    FusionFailed { detail: String },
    /// The final text could not be written to the clipboard.
    ClipboardWriteFailed,
}

/// The phrases a speech model emits on silent audio; a transcript equal to
/// one of them (lower-cased, trimmed, with or without trailing periods) is
/// spurious.
pub open spec fn hallucination_phrases() -> Seq<Seq<char>> {
    seq![
        "thank you"@,
        "thanks for watching"@,
        "thanks for listening"@,
        "bye"@,
        "goodbye"@,
        "see you"@,
        "subscribe"@,
        "like and subscribe"@,
        "you"@,
        "the end"@,
        "."@,
        ""@,
    ]
}

/// Whether a transcript is a known silent-audio hallucination: lower-cased
/// and trimmed it equals a listed phrase, with or without its trailing
/// periods.
pub open spec fn is_hallucination_spec(t: Seq<char>) -> bool {
    let lower = lower_seq(trim_spec(t));
    exists|i: int|
        0 <= i < hallucination_phrases().len() && (lower == hallucination_phrases()[i]
            || trim_end_dots(lower) == hallucination_phrases()[i])
}

fn matches_phrase(lower: &Vec<char>, stripped: &Vec<char>, phrase: &str) -> (r: bool)
    ensures
        r == (lower@ == phrase@ || stripped@ == phrase@),
{
    let p = str_to_chars(phrase);
    chars_eq(lower, &p) || chars_eq(stripped, &p)
}

/// Filters out the transcripts a speech model hallucinates on silence.
pub fn is_hallucination(text: &str) -> (r: bool)
    ensures
        r == is_hallucination_spec(text@),
{
    let chars = str_to_chars(text);
    let trimmed = trim_chars(&chars);
    let lower = lower_chars(&trimmed);
    let stripped = trim_end_dots_chars(&lower);
    let r = matches_phrase(&lower, &stripped, "thank you") || matches_phrase(
        &lower,
        &stripped,
        "thanks for watching",
    ) || matches_phrase(&lower, &stripped, "thanks for listening") || matches_phrase(
        &lower,
        &stripped,
        "bye",
    ) || matches_phrase(&lower, &stripped, "goodbye") || matches_phrase(
        &lower,
        &stripped,
        "see you",
    ) || matches_phrase(&lower, &stripped, "subscribe") || matches_phrase(
        &lower,
        &stripped,
        "like and subscribe",
    ) || matches_phrase(&lower, &stripped, "you") || matches_phrase(
        &lower,
        &stripped,
        "the end",
    ) || matches_phrase(&lower, &stripped, ".") || matches_phrase(&lower, &stripped, "");
    proof {
        let phr = hallucination_phrases();
        assert(phr.len() == 12);
        assert(phr[0] == "thank you"@);
        assert(phr[1] == "thanks for watching"@);
        assert(phr[2] == "thanks for listening"@);
        assert(phr[3] == "bye"@);
        assert(phr[4] == "goodbye"@);
        assert(phr[5] == "see you"@);
        assert(phr[6] == "subscribe"@);
        assert(phr[7] == "like and subscribe"@);
        assert(phr[8] == "you"@);
        assert(phr[9] == "the end"@);
        assert(phr[10] == "."@);
        assert(phr[11] == ""@);
        let lv = lower_seq(trim_spec(text@));
        assert(lower@ == lv);
        assert(stripped@ == trim_end_dots(lv));
        if !r {
            assert forall|i: int|
                0 <= i < phr.len() implies !(lv == phr[i] || trim_end_dots(lv) == phr[i]) by {}
        }
    }
    r
}

/// The conversational deflections a cleanup model emits when the input is
/// too minimal to clean; a polished text containing one is a misfire.
pub open spec fn deflection_phrases() -> Seq<Seq<char>> {
    seq![
        "i'm here to help"@,
        "please provide"@,
        "i can help"@,
        "could you please"@,
        "i'm sorry"@,
        "i can only process"@,
        "feel free to share"@,
        "if you have a"@,
        "transcription you'd like"@,
    ]
}

/// Whether a polished text reads as a conversational deflection rather than
/// a cleaned transcript.
pub open spec fn looks_like_deflection(t: Seq<char>) -> bool {
    exists|i: int|
        0 <= i < deflection_phrases().len() && contains_seq(lower_seq(t), deflection_phrases()[i])
}

/// Whether a polished text is implausibly longer than its input: more than
/// three times as long, and over fifty characters.
pub open spec fn implausibly_long(raw: Seq<char>, t: Seq<char>) -> bool {
    let base = if raw.len() == 0 {
        1int
    } else {
        raw.len() as int
    };
    t.len() > 3 * base && t.len() > 50
}

/// What the pipeline keeps of a polish completion: the polished text,
/// unless it looks like a model misfire, in which case the raw text stands.
pub open spec fn polish_acceptance(raw: Seq<char>, t: Seq<char>) -> Seq<char> {
    if looks_like_deflection(t) || implausibly_long(raw, t) {
        raw
    } else {
        t
    }
}

fn contains_phrase(lower: &Vec<char>, phrase: &str) -> (r: bool)
    ensures
        r == contains_seq(lower@, phrase@),
{
    let p = str_to_chars(phrase);
    contains_chars(lower, &p)
}

/// Decides whether a polish completion is trusted: a deflection or an
/// implausibly long output falls back to the raw text.
pub fn accept_polish(raw: &String, polished: String) -> (r: String)
    ensures
        r@ == polish_acceptance(raw@, polished@),
{
    let chars = str_to_chars(polished.as_str());
    let lower = lower_chars(&chars);
    let deflecting = contains_phrase(&lower, "i'm here to help") || contains_phrase(
        &lower,
        "please provide",
    ) || contains_phrase(&lower, "i can help") || contains_phrase(
        &lower,
        "could you please",
    ) || contains_phrase(&lower, "i'm sorry") || contains_phrase(
        &lower,
        "i can only process",
    ) || contains_phrase(&lower, "feel free to share") || contains_phrase(
        &lower,
        "if you have a",
    ) || contains_phrase(&lower, "transcription you'd like");
    proof {
        let phr = deflection_phrases();
        assert(phr.len() == 9);
        assert(phr[0] == "i'm here to help"@);
        assert(phr[1] == "please provide"@);
        assert(phr[2] == "i can help"@);
        assert(phr[3] == "could you please"@);
        assert(phr[4] == "i'm sorry"@);
        assert(phr[5] == "i can only process"@);
        assert(phr[6] == "feel free to share"@);
        assert(phr[7] == "if you have a"@);
        assert(phr[8] == "transcription you'd like"@);
        assert(lower@ == lower_seq(polished@));
        if !deflecting {
            assert forall|i: int|
                0 <= i < phr.len() implies !contains_seq(lower_seq(polished@), phr[i]) by {}
        }
    }
    let plen = {
        let pv = str_to_chars(polished.as_str());
        pv.len()
    };
    let rlen = {
        let rv = str_to_chars(raw.as_str());
        rv.len()
    };
    let base: usize = if rlen == 0 {
        1
    } else {
        rlen
    };
    let too_long = (plen as u128) > 3 * (base as u128) && plen > 50;
    if deflecting || too_long {
        raw.clone()
    } else {
        polished
    }
}

/// What a pipeline step asks the surrounding process to do, in order. The
/// pipeline never performs I/O itself: it emits these and consumes the
/// outcomes.
#[derive(Clone, Debug)]
pub enum Action {
    /// Move the shared recording state to Processing.
    SetProcessing,
    /// Move the shared recording state back to Idle.
    SetIdle,
    /// Emit a progress event to the observer.
    Progress { stage: Stage, message: String },
    /// Show a user-visible notification.
    Notify { message: String },
    /// Run every keyed provider on the audio file in parallel, each under
    /// the per-provider timeout, and hand back all outcomes.
    RunEnsemble { openai: Option<String>, groq: Option<String>, gladia: Option<String>, audio_path: String },
    /// Run the one configured provider on the audio file, under the retry
    /// policy, and hand back its result.
    RunTranscription { provider: TranscriptionProvider, api_key: String, audio_path: String },
    /// Run the polish chat completion on the text, under the retry policy.
    RunPolish { api_key: String, text: String },
    /// Run the fusion chat completion over the results, under the retry
    /// policy.
    RunFusion { api_key: String, results: Vec<ProviderResult> },
    /// Write the text to the clipboard.
    WriteClipboard { text: String },
    /// Attempt the simulated paste keystroke, permission first.
    AttemptPaste,
    /// Let the target application consume the keystroke.
    SettleDelay { ms: u64 },
    /// Write the guard's snapshot back to the clipboard, if it holds one.
    RestoreClipboard,
    /// Schedule the correction detector on the pasted text.
    ScheduleCorrectionWindow { text: String, delay_ms: u64 },
    /// Append the run to the history store; failure here is non-fatal.
    PersistHistory { text: String, raw: Option<String> },
}

/// Whether an action reaches the network for transcription, polish or
/// fusion.
pub open spec fn is_provider_call(a: Action) -> bool {
    ||| a is RunEnsemble
    ||| a is RunTranscription
    ||| a is RunPolish
    ||| a is RunFusion
}

/// How many actions of a batch reach the network.
pub open spec fn provider_call_count(s: Seq<Action>) -> int
    decreases s.len(),
{
    if s.len() == 0 {
        0
    } else {
        provider_call_count(s.drop_last()) + (if is_provider_call(s.last()) {
            1int
        } else {
            0int
        })
    }
}

/// How many actions of a batch reset the recording state to Idle.
pub open spec fn idle_count(s: Seq<Action>) -> int
    decreases s.len(),
{
    if s.len() == 0 {
        0
    } else {
        idle_count(s.drop_last()) + (if s.last() is SetIdle {
            1int
        } else {
            0int
        })
    }
}

/// How many actions of a batch invoke fusion.
pub open spec fn fusion_count(s: Seq<Action>) -> int
    decreases s.len(),
{
    if s.len() == 0 {
        0
    } else {
        fusion_count(s.drop_last()) + (if s.last() is RunFusion {
            1int
        } else {
            0int
        })
    }
}

/// How many actions of a batch invoke polish.
pub open spec fn polish_count(s: Seq<Action>) -> int
    decreases s.len(),
{
    if s.len() == 0 {
        0
    } else {
        polish_count(s.drop_last()) + (if s.last() is RunPolish {
            1int
        } else {
            0int
        })
    }
}

/// Appending one action extends each count by that action's contribution.
pub broadcast proof fn lemma_counts_push(s: Seq<Action>, a: Action)
    ensures
        #![trigger s.push(a)]
        idle_count(s.push(a)) == idle_count(s) + (if a is SetIdle {
            1int
        } else {
            0int
        }),
        provider_call_count(s.push(a)) == provider_call_count(s) + (if is_provider_call(a) {
            1int
        } else {
            0int
        }),
        fusion_count(s.push(a)) == fusion_count(s) + (if a is RunFusion {
            1int
        } else {
            0int
        }),
        polish_count(s.push(a)) == polish_count(s) + (if a is RunPolish {
            1int
        } else {
            0int
        }),
{
    assert(s.push(a).drop_last() =~= s);
    assert(s.push(a).last() == a);
}

/// The SetIdle count distributes over batch concatenation.
pub broadcast proof fn lemma_idle_count_concat(a: Seq<Action>, b: Seq<Action>)
    ensures
        #![trigger idle_count(a + b)]
        idle_count(a + b) == idle_count(a) + idle_count(b),
    decreases b.len(),
{
    if b.len() == 0 {
        assert(a + b =~= a);
    } else {
        assert((a + b).drop_last() =~= a + b.drop_last());
        assert((a + b).last() == b.last());
        lemma_idle_count_concat(a, b.drop_last());
    }
}

/// The provider-call count distributes over batch concatenation.
pub broadcast proof fn lemma_provider_count_concat(a: Seq<Action>, b: Seq<Action>)
    ensures
        #![trigger provider_call_count(a + b)]
        provider_call_count(a + b) == provider_call_count(a) + provider_call_count(b),
    decreases b.len(),
{
    if b.len() == 0 {
        assert(a + b =~= a);
    } else {
        assert((a + b).drop_last() =~= a + b.drop_last());
        assert((a + b).last() == b.last());
        lemma_provider_count_concat(a, b.drop_last());
    }
}

/// The clipboard content after a batch of actions runs, starting from
/// `clip`, with `snapshot` held by the guard: a write replaces the content,
/// a restore writes the snapshot back when there is one, and every other
/// action leaves the clipboard alone.
pub open spec fn clipboard_after(
    actions: Seq<Action>,
    snapshot: Option<Seq<char>>,
    clip: Seq<char>,
) -> Seq<char>
    decreases actions.len(),
{
    if actions.len() == 0 {
        clip
    } else {
        let next = match actions[0] {
            Action::WriteClipboard { text } => text@,
            Action::RestoreClipboard => match snapshot {
                Option::Some(s) => s,
                Option::None => clip,
            },
            _ => clip,
        };
        clipboard_after(actions.drop_first(), snapshot, next)
    }
}

/// Running one batch after another runs the second from where the first
/// left the clipboard.
pub proof fn lemma_clipboard_after_concat(
    a: Seq<Action>,
    b: Seq<Action>,
    snapshot: Option<Seq<char>>,
    clip: Seq<char>,
)
    ensures
        clipboard_after(a + b, snapshot, clip) == clipboard_after(
            b,
            snapshot,
            clipboard_after(a, snapshot, clip),
        ),
    decreases a.len(),
{
    if a.len() == 0 {
        assert(a + b =~= b);
    } else {
        assert((a + b)[0] == a[0]);
        assert((a + b).drop_first() =~= a.drop_first() + b);
        let next = match a[0] {
            Action::WriteClipboard { text } => text@,
            Action::RestoreClipboard => match snapshot {
                Option::Some(s) => s,
                Option::None => clip,
            },
            _ => clip,
        };
        lemma_clipboard_after_concat(a.drop_first(), b, snapshot, next);
    }
}

/// The provider's display name.
pub open spec fn provider_name_spec(p: TranscriptionProvider) -> Seq<char> {
    match p {
        TranscriptionProvider::OpenAI => "OpenAI"@,
        TranscriptionProvider::Groq => "Groq"@,
        TranscriptionProvider::Gladia => "Gladia"@,
    }
}

/// Renders a provider's display name.
pub fn provider_name(p: TranscriptionProvider) -> (r: String)
    ensures
        r@ == provider_name_spec(p),
{
    match p {
        TranscriptionProvider::OpenAI => String::from_str("OpenAI"),
        TranscriptionProvider::Groq => String::from_str("Groq"),
        TranscriptionProvider::Gladia => String::from_str("Gladia"),
    }
}

/// The key the single-provider path uses for a provider.
pub open spec fn key_for(keys: ApiKeys, p: TranscriptionProvider) -> Option<String> {
    match p {
        TranscriptionProvider::OpenAI => keys.openai,
        TranscriptionProvider::Groq => keys.groq,
        TranscriptionProvider::Gladia => keys.gladia,
    }
}

fn clone_opt_string(k: &Option<String>) -> (r: Option<String>)
    ensures
        r == *k,
{
    match k {
        Option::Some(s) => Option::Some(s.clone()),
        Option::None => Option::None,
    }
}

/// Where a pipeline run stands: which outside outcome it waits for next.
#[derive(Clone, Copy, Debug, PartialEq, Eq, Structural)]
pub enum Phase {
    /// Waiting for the audio file's size.
    AwaitAudio,
    /// Waiting for all ensemble providers' outcomes.
    AwaitEnsemble,
    /// Waiting for the single provider's result.
    AwaitTranscription,
    /// Waiting for the polish completion.
    AwaitPolish,
    /// Waiting for the fusion completion.
    AwaitFusion,
    /// Waiting for the clipboard write's outcome.
    AwaitClipboard,
    /// Waiting for the paste attempt's outcome.
    AwaitPaste,
    /// The run ended; the outcome is set.
    Done,
}

/// How the paste attempt ended, as the surrounding process observed it: a
/// delivered keystroke, a failure (an error, a panic caught in the
/// keystroke step, or a scheduling fault), or a missing accessibility
/// permission, which skips the attempt.
#[derive(Clone, Copy, Debug, PartialEq, Eq, Structural)]
pub enum PasteOutcome {
    Pasted,
    Failed,
    NoPermission,
}

/// One recording's run from audio file to pasted text. Every terminal step,
/// success or error, emits SetIdle exactly once, and no other step emits
/// it: the shared state can never be left stuck in Processing.
pub struct Pipeline {
    /// Which outcome the run waits for.
    pub phase: Phase,
    /// The settings read when the run started.
    pub settings: Settings,
    /// The resolved, non-blank API keys.
    pub keys: ApiKeys,
    /// The audio file the run transcribes.
    pub audio_path: String,
    /// The raw text kept for history: the single provider's transcript, or
    /// the labelled record of all ensemble successes.
    pub raw_text: String,
    /// The text the polish stage falls back to when it fails or misfires.
    pub polish_source: String,
    /// The final text, once a stage produced it.
    pub final_text: String,
    /// Whether this run took the ensemble path.
    pub ensemble_run: bool,
    /// How many SetIdle actions the run has emitted.
    pub idles: u32,
    /// Every action the run has emitted so far, in order.
    pub trace: Ghost<Seq<Action>>,
    /// The run's result, set exactly when the phase is Done.
    pub outcome: Option<Result<String, PipelineError>>,
}

impl Pipeline {
    /// The machine's invariant: the outcome exists exactly at the end, the
    /// one SetIdle has been emitted exactly at the end, and the keys the
    /// later stages rely on were checked on entry.
    pub open spec fn wf(&self) -> bool {
        &&& (self.phase is Done) <==> (self.outcome is Some)
        &&& self.idles == (if self.phase is Done {
            1int
        } else {
            0int
        })
        &&& (self.phase is AwaitTranscription && self.settings.ai_polish_enabled
            ==> self.keys.openai is Some)
        &&& idle_count(self.trace@) == self.idles
        &&& (self.phase is AwaitAudio ==> provider_call_count(self.trace@) == 0)
    }

    /// Begins a run: the shared state moves to Processing, and the machine
    /// waits for the audio file's size.
    pub fn start(settings: Settings, keys: ApiKeys, audio_path: String) -> (r: (
        Pipeline,
        Vec<Action>,
    ))
        ensures
            r.0.wf(),
            r.0.phase is AwaitAudio,
            r.0.settings == settings,
            r.0.keys == keys,
            r.0.audio_path == audio_path,
            r.0.idles == 0,
            !r.0.ensemble_run,
            r.0.trace@ == r.1@,
            r.1@.len() == 1,
            r.1@[0] is SetProcessing,
            idle_count(r.1@) == 0,
            provider_call_count(r.1@) == 0,
    {
        broadcast use lemma_counts_push, lemma_idle_count_concat, lemma_provider_count_concat;

        let mut actions: Vec<Action> = Vec::new();
        actions.push(Action::SetProcessing);
        proof {
            assert(idle_count(actions@) == 0);
            assert(provider_call_count(actions@) == 0);
        }
        let p = Pipeline {
            phase: Phase::AwaitAudio,
            settings,
            keys,
            audio_path,
            raw_text: String::new(),
            polish_source: String::new(),
            final_text: String::new(),
            ensemble_run: false,
            idles: 0,
            trace: Ghost(actions@),
            outcome: Option::None,
        };
        (p, actions)
    }

    /// Consumes the audio file's size (None when the file could not be
    /// read). A missing or too-small file ends the run before any provider
    /// is called; otherwise the run takes the ensemble path when it is
    /// enabled and at least two providers have keys, and the
    /// single-provider path otherwise, failing early when the configured
    /// provider, or the polish stage, has no key.
    pub fn on_audio_size(&mut self, size: Option<u64>) -> (actions: Vec<Action>)
        requires
            old(self).wf(),
            old(self).phase is AwaitAudio,
        ensures
            final(self).wf(),
            final(self).settings == old(self).settings,
            final(self).keys == old(self).keys,
            idle_count(actions@) == final(self).idles - old(self).idles,
            final(self).trace@ == old(self).trace@ + actions@,
            // A small or missing file is rejected before any network call,
            // and the state returns to Idle.
            (size is None || (size matches Some(sz) && sz < MIN_AUDIO_SIZE)) ==> {
                &&& final(self).phase is Done
                &&& provider_call_count(actions@) == 0
                // Nothing the whole run emitted reached the network.
                &&& provider_call_count(final(self).trace@) == 0
                &&& idle_count(actions@) == 1
            },
            size is None ==> {
                &&& final(self).outcome == Some(Result::<String, PipelineError>::Err(
                    PipelineError::AudioMissing,
                ))
                &&& actions@.len() == 2
                &&& (actions@[0] matches Action::Progress { stage, message } && stage is Error
                    && message@ == "Audio file not found"@)
                &&& actions@[1] is SetIdle
            },
            (size matches Some(sz) && sz < MIN_AUDIO_SIZE) ==> {
                &&& final(self).outcome == Some(Result::<String, PipelineError>::Err(
                    PipelineError::AudioTooShort,
                ))
                &&& actions@.len() == 2
                &&& (actions@[0] matches Action::Progress { stage, message } && stage is Error
                    && message@ == "Recording too short"@)
                &&& actions@[1] is SetIdle
            },
            (size matches Some(sz) && sz >= MIN_AUDIO_SIZE) ==> ({
                let use_ensemble = old(self).settings.ensemble_enabled && old(
                    self,
                ).keys.provider_count_spec() >= 2;
                let provider = old(self).settings.transcription_provider;
                let key = key_for(old(self).keys, provider);
                &&& use_ensemble ==> {
                    &&& final(self).phase is AwaitEnsemble
                    &&& final(self).ensemble_run
                    &&& actions@.len() == 2
                    &&& (actions@[0] matches Action::Progress { stage, message }
                        && stage is Transcribing && message@ == "Transcribing (ensemble)..."@)
                    &&& (actions@[1] matches Action::RunEnsemble {
                        openai,
                        groq,
                        gladia,
                        audio_path,
                    } && openai == old(self).keys.openai && groq == old(self).keys.groq && gladia
                        == old(self).keys.gladia && audio_path@ == old(self).audio_path@)
                    &&& provider_call_count(actions@) == 1
                }
                &&& (!use_ensemble && key is None) ==> {
                    &&& final(self).phase is Done
                    &&& final(self).outcome == Some(Result::<String, PipelineError>::Err(
                        PipelineError::MissingTranscriptionKey { provider },
                    ))
                    &&& provider_call_count(actions@) == 0
                    &&& actions@.len() == 3
                    &&& (actions@[0] matches Action::Progress { stage, message } && stage is Error
                        && message@ == "No "@ + provider_name_spec(provider)
                        + " API key configured"@)
                    &&& (actions@[1] matches Action::Notify { message } && message@
                        == "Please set your "@ + provider_name_spec(provider)
                        + " API key in settings"@)
                    &&& actions@[2] is SetIdle
                }
                &&& (!use_ensemble && key is Some && old(self).settings.ai_polish_enabled && old(
                    self,
                ).keys.openai is None) ==> {
                    &&& final(self).phase is Done
                    &&& final(self).outcome == Some(Result::<String, PipelineError>::Err(
                        PipelineError::MissingPolishKey,
                    ))
                    &&& provider_call_count(actions@) == 0
                    &&& actions@.len() == 3
                    &&& (actions@[0] matches Action::Progress { stage, message } && stage is Error
                        && message@ == "No OpenAI API key for AI polish"@)
                    &&& (actions@[1] matches Action::Notify { message } && message@
                        == "Please set your OpenAI API key for AI polish"@)
                    &&& actions@[2] is SetIdle
                }
                &&& (!use_ensemble && key is Some && (!old(self).settings.ai_polish_enabled || old(
                    self,
                ).keys.openai is Some)) ==> {
                    &&& final(self).phase is AwaitTranscription
                    &&& actions@.len() == 2
                    &&& (actions@[0] matches Action::Progress { stage, message }
                        && stage is Transcribing && message@ == "Transcribing via "@
                        + provider_name_spec(provider) + "..."@)
                    &&& (actions@[1] matches Action::RunTranscription {
                        provider: ap,
                        api_key,
                        audio_path,
                    } && ap == provider && Option::Some(api_key) == key && audio_path@ == old(
                        self,
                    ).audio_path@)
                    &&& provider_call_count(actions@) == 1
                }
            }),
    {
        broadcast use lemma_counts_push, lemma_idle_count_concat, lemma_provider_count_concat;

        let mut actions: Vec<Action> = Vec::new();
        match size {
            Option::None => {
                actions.push(
                    Action::Progress {
                        stage: Stage::Error,
                        message: String::from_str("Audio file not found"),
                    },
                );
                actions.push(Action::SetIdle);
                self.phase = Phase::Done;
                self.outcome = Option::Some(Result::Err(PipelineError::AudioMissing));
                self.idles = 1;
                self.trace = Ghost(self.trace@ + actions@);
                proof {
                    assert(idle_count(actions@) == 1);
                    assert(provider_call_count(actions@) == 0);
                }
                actions
            },
            Option::Some(sz) => {
                if sz < MIN_AUDIO_SIZE {
                    actions.push(
                        Action::Progress {
                            stage: Stage::Error,
                            message: String::from_str("Recording too short"),
                        },
                    );
                    actions.push(Action::SetIdle);
                    self.phase = Phase::Done;
                    self.outcome = Option::Some(Result::Err(PipelineError::AudioTooShort));
                    self.idles = 1;
                    self.trace = Ghost(self.trace@ + actions@);
                    proof {
                        assert(idle_count(actions@) == 1);
                        assert(provider_call_count(actions@) == 0);
                    }
                    return actions;
                }
                let use_ensemble = self.settings.ensemble_enabled && self.keys.provider_count()
                    >= 2;
                if use_ensemble {
                    actions.push(
                        Action::Progress {
                            stage: Stage::Transcribing,
                            message: String::from_str("Transcribing (ensemble)..."),
                        },
                    );
                    actions.push(
                        Action::RunEnsemble {
                            openai: clone_opt_string(&self.keys.openai),
                            groq: clone_opt_string(&self.keys.groq),
                            gladia: clone_opt_string(&self.keys.gladia),
                            audio_path: self.audio_path.clone(),
                        },
                    );
                    self.phase = Phase::AwaitEnsemble;
                    self.ensemble_run = true;
                    self.trace = Ghost(self.trace@ + actions@);
                    proof {
                        assert(idle_count(actions@) == 0);
                        assert(provider_call_count(actions@) == 1);
                    }
                    return actions;
                }
                let provider = self.settings.transcription_provider;
                let key = match provider {
                    TranscriptionProvider::OpenAI => clone_opt_string(&self.keys.openai),
                    TranscriptionProvider::Groq => clone_opt_string(&self.keys.groq),
                    TranscriptionProvider::Gladia => clone_opt_string(&self.keys.gladia),
                };
                let key = match key {
                    Option::None => {
                        let name = provider_name(provider);
                        let mut msg = String::from_str("No ");
                        msg.append(name.as_str());
                        msg.append(" API key configured");
                        let mut note = String::from_str("Please set your ");
                        note.append(name.as_str());
                        note.append(" API key in settings");
                        actions.push(Action::Progress { stage: Stage::Error, message: msg });
                        actions.push(Action::Notify { message: note });
                        actions.push(Action::SetIdle);
                        self.phase = Phase::Done;
                        self.outcome = Option::Some(
                            Result::Err(PipelineError::MissingTranscriptionKey { provider }),
                        );
                        self.idles = 1;
                        self.trace = Ghost(self.trace@ + actions@);
                        proof {
                            assert(idle_count(actions@) == 1);
                            assert(provider_call_count(actions@) == 0);
                        }
                        return actions;
                    },
                    Option::Some(k) => k,
                };
                if self.settings.ai_polish_enabled && self.keys.openai.is_none() {
                    actions.push(
                        Action::Progress {
                            stage: Stage::Error,
                            message: String::from_str("No OpenAI API key for AI polish"),
                        },
                    );
                    actions.push(
                        Action::Notify {
                            message: String::from_str(
                                "Please set your OpenAI API key for AI polish",
                            ),
                        },
                    );
                    actions.push(Action::SetIdle);
                    self.phase = Phase::Done;
                    self.outcome = Option::Some(Result::Err(PipelineError::MissingPolishKey));
                    self.idles = 1;
                    self.trace = Ghost(self.trace@ + actions@);
                    proof {
                        assert(idle_count(actions@) == 1);
                        assert(provider_call_count(actions@) == 0);
                    }
                    return actions;
                }
                let name = provider_name(provider);
                let mut msg = String::from_str("Transcribing via ");
                msg.append(name.as_str());
                msg.append("...");
                actions.push(Action::Progress { stage: Stage::Transcribing, message: msg });
                actions.push(
                    Action::RunTranscription {
                        provider,
                        api_key: key,
                        audio_path: self.audio_path.clone(),
                    },
                );
                self.phase = Phase::AwaitTranscription;
                self.trace = Ghost(self.trace@ + actions@);
                proof {
                    assert(idle_count(actions@) == 0);
                    assert(provider_call_count(actions@) == 1);
                }
                actions
            },
        }
    }

    /// Moves to the paste stage with the final text settled: the text goes
    /// to the clipboard unconditionally, before any paste attempt, so a
    /// usable copy exists whatever happens next.
    fn to_paste_stage(&mut self, text: String) -> (actions: Vec<Action>)
        requires
            !(old(self).phase is Done),
        ensures
            final(self).phase is AwaitClipboard,
            final(self).final_text == text,
            final(self).settings == old(self).settings,
            final(self).keys == old(self).keys,
            final(self).raw_text == old(self).raw_text,
            final(self).ensemble_run == old(self).ensemble_run,
            final(self).idles == old(self).idles,
            final(self).outcome == old(self).outcome,
            final(self).trace@ == old(self).trace@ + actions@,
            actions@.len() == 2,
            (actions@[0] matches Action::Progress { stage, message } && stage is Pasting
                && message@ == ""@),
            (actions@[1] matches Action::WriteClipboard { text: t } && t@ == text@),
            idle_count(actions@) == 0,
            provider_call_count(actions@) == 0,
            forall|sn: Option<Seq<char>>, c0: Seq<char>|
                clipboard_after(actions@, sn, c0) == text@,
    {
        broadcast use lemma_counts_push, lemma_idle_count_concat, lemma_provider_count_concat;

        proof {
            reveal_strlit("");
            assert(""@ =~= Seq::<char>::empty());
        }
        let mut actions: Vec<Action> = Vec::new();
        actions.push(Action::Progress { stage: Stage::Pasting, message: String::new() });
        actions.push(Action::WriteClipboard { text: text.clone() });
        self.final_text = text;
        self.phase = Phase::AwaitClipboard;
        self.trace = Ghost(self.trace@ + actions@);
        proof {
            assert forall|sn: Option<Seq<char>>, c0: Seq<char>|
                clipboard_after(actions@, sn, c0) == self.final_text@ by {
                let a = actions@;
                assert(clipboard_after(a, sn, c0) == clipboard_after(a.drop_first(), sn, c0));
                let b = a.drop_first();
                assert(b[0] == a[1]);
                assert(clipboard_after(b, sn, c0) == clipboard_after(
                    b.drop_first(),
                    sn,
                    self.final_text@,
                ));
                assert(b.drop_first().len() == 0);
            }
        }
        actions
    }

    /// Consumes all ensemble providers' outcomes. No success fails the run;
    /// exactly one success skips fusion and goes to the polish path on that
    /// text, as single-provider mode would; two or more successes invoke
    /// fusion exactly once, over all of them. The labelled record of every
    /// success is kept as the raw text for history.
    pub fn on_ensemble_outcomes(&mut self, attempts: Vec<ProviderAttempt>) -> (actions: Vec<
        Action,
    >)
        requires
            old(self).wf(),
            old(self).phase is AwaitEnsemble,
            old(self).ensemble_run,
        ensures
            final(self).wf(),
            final(self).settings == old(self).settings,
            final(self).keys == old(self).keys,
            final(self).ensemble_run,
            idle_count(actions@) == final(self).idles - old(self).idles,
            final(self).trace@ == old(self).trace@ + actions@,
            ({
                let succ = successes_of(attempts@);
                &&& succ.len() == 0 ==> {
                    &&& final(self).phase is Done
                    &&& final(self).outcome == Some(Result::<String, PipelineError>::Err(
                        PipelineError::AllProvidersFailed,
                    ))
                    &&& provider_call_count(actions@) == 0
                    &&& actions@.len() == 3
                    &&& (actions@[0] matches Action::Progress { stage, message } && stage is Error
                        && message@
                        == "Ensemble transcription failed: All transcription providers failed"@)
                    &&& (actions@[1] matches Action::Notify { message } && message@
                        == "Transcription failed"@)
                    &&& actions@[2] is SetIdle
                }
                &&& (succ.len() >= 1 && old(self).keys.openai is None) ==> {
                    &&& final(self).phase is Done
                    &&& final(self).outcome == Some(Result::<String, PipelineError>::Err(
                        PipelineError::MissingPolishKey,
                    ))
                    &&& provider_call_count(actions@) == 0
                    &&& actions@.len() == 3
                    &&& (actions@[0] matches Action::Progress { stage, message } && stage is Error
                        && (message@ == if succ.len() == 1 {
                            "Ensemble transcription failed: OpenAI API key required for polish"@
                        } else {
                            "Ensemble transcription failed: OpenAI API key required for fusion"@
                        }))
                    &&& (actions@[1] matches Action::Notify { message } && message@
                        == "Transcription failed"@)
                    &&& actions@[2] is SetIdle
                }
                // Exactly one success: no fusion call is made; only polish
                // runs, on that provider's text.
                &&& (succ.len() == 1 && old(self).keys.openai is Some) ==> {
                    &&& final(self).phase is AwaitPolish
                    &&& final(self).raw_text@ == raw_record_spec(succ)
                    &&& final(self).polish_source@ == succ[0].1
                    &&& actions@.len() == 2
                    &&& (actions@[0] matches Action::Progress { stage, message }
                        && stage is Polishing && message@ == "Processing..."@)
                    &&& (actions@[1] matches Action::RunPolish { api_key, text } && Option::Some(
                        api_key,
                    ) == old(self).keys.openai && text@ == succ[0].1)
                    &&& fusion_count(actions@) == 0
                    &&& polish_count(actions@) == 1
                    &&& provider_call_count(actions@) == 1
                }
                // Two or more successes: fusion is invoked exactly once,
                // with all successful results included.
                &&& (succ.len() >= 2 && old(self).keys.openai is Some) ==> {
                    &&& final(self).phase is AwaitFusion
                    &&& final(self).raw_text@ == raw_record_spec(succ)
                    &&& actions@.len() == 2
                    &&& (actions@[0] matches Action::Progress { stage, message }
                        && stage is Polishing && message@ == "Fusing transcriptions..."@)
                    &&& (actions@[1] matches Action::RunFusion { api_key, results } && Option::Some(
                        api_key,
                    ) == old(self).keys.openai && results_view(results@) == succ)
                    &&& fusion_count(actions@) == 1
                    &&& polish_count(actions@) == 0
                    &&& provider_call_count(actions@) == 1
                }
            }),
    {
        broadcast use lemma_counts_push, lemma_idle_count_concat, lemma_provider_count_concat;

        let ghost succ = successes_of(attempts@);
        let successes = collect_successes(attempts);
        let mut actions: Vec<Action> = Vec::new();
        match plan_ensemble(successes) {
            EnsemblePlan::AllFailed => {
                actions.push(
                    Action::Progress {
                        stage: Stage::Error,
                        message: String::from_str(
                            "Ensemble transcription failed: All transcription providers failed",
                        ),
                    },
                );
                actions.push(Action::Notify { message: String::from_str("Transcription failed") });
                actions.push(Action::SetIdle);
                self.phase = Phase::Done;
                self.outcome = Option::Some(Result::Err(PipelineError::AllProvidersFailed));
                self.idles = 1;
                self.trace = Ghost(self.trace@ + actions@);
                actions
            },
            EnsemblePlan::PolishSingle { text, raw_record } => {
                match clone_opt_string(&self.keys.openai) {
                    Option::None => {
                        actions.push(
                            Action::Progress {
                                stage: Stage::Error,
                                message: String::from_str(
                                    "Ensemble transcription failed: OpenAI API key required for polish",
                                ),
                            },
                        );
                        actions.push(
                            Action::Notify { message: String::from_str("Transcription failed") },
                        );
                        actions.push(Action::SetIdle);
                        self.phase = Phase::Done;
                        self.outcome = Option::Some(Result::Err(PipelineError::MissingPolishKey));
                        self.idles = 1;
                        self.trace = Ghost(self.trace@ + actions@);
                        actions
                    },
                    Option::Some(key) => {
                        self.raw_text = raw_record;
                        self.polish_source = text.clone();
                        actions.push(
                            Action::Progress {
                                stage: Stage::Polishing,
                                message: String::from_str("Processing..."),
                            },
                        );
                        actions.push(Action::RunPolish { api_key: key, text });
                        self.phase = Phase::AwaitPolish;
                        self.trace = Ghost(self.trace@ + actions@);
                        actions
                    },
                }
            },
            EnsemblePlan::Fuse { results, raw_record } => {
                match clone_opt_string(&self.keys.openai) {
                    Option::None => {
                        actions.push(
                            Action::Progress {
                                stage: Stage::Error,
                                message: String::from_str(
                                    "Ensemble transcription failed: OpenAI API key required for fusion",
                                ),
                            },
                        );
                        actions.push(
                            Action::Notify { message: String::from_str("Transcription failed") },
                        );
                        actions.push(Action::SetIdle);
                        self.phase = Phase::Done;
                        self.outcome = Option::Some(Result::Err(PipelineError::MissingPolishKey));
                        self.idles = 1;
                        self.trace = Ghost(self.trace@ + actions@);
                        actions
                    },
                    Option::Some(key) => {
                        self.raw_text = raw_record;
                        actions.push(
                            Action::Progress {
                                stage: Stage::Polishing,
                                message: String::from_str("Fusing transcriptions..."),
                            },
                        );
                        actions.push(Action::RunFusion { api_key: key, results });
                        self.phase = Phase::AwaitFusion;
                        self.trace = Ghost(self.trace@ + actions@);
                        actions
                    },
                }
            },
        }
    }

    /// Consumes the single provider's result. An error, an empty trimmed
    /// transcript, a known hallucination, or a transcript below the minimum
    /// meaningful length ends the run; otherwise the text goes to polish
    /// when it is enabled, and straight to the paste stage when it is not.
    pub fn on_single_transcription(&mut self, result: Result<String, String>) -> (actions: Vec<
        Action,
    >)
        requires
            old(self).wf(),
            old(self).phase is AwaitTranscription,
            !old(self).ensemble_run,
        ensures
            final(self).wf(),
            final(self).settings == old(self).settings,
            final(self).keys == old(self).keys,
            !final(self).ensemble_run,
            idle_count(actions@) == final(self).idles - old(self).idles,
            final(self).trace@ == old(self).trace@ + actions@,
            result matches Err(e) ==> {
                &&& final(self).phase is Done
                &&& (final(self).outcome matches Some(o) && o matches Err(pe) && pe matches
                    PipelineError::ProviderFailed { detail } && detail@ == e@)
                &&& actions@.len() == 3
                &&& (actions@[0] matches Action::Progress { stage, message } && stage is Error
                    && message@ == "Transcription failed: "@ + e@)
                &&& (actions@[1] matches Action::Notify { message } && message@
                    == "Transcription failed"@)
                &&& actions@[2] is SetIdle
            },
            result matches Ok(t) ==> ({
                let trimmed = trim_spec(t@);
                &&& trimmed.len() == 0 ==> {
                    &&& final(self).phase is Done
                    &&& final(self).outcome == Some(Result::<String, PipelineError>::Err(
                        PipelineError::EmptyTranscript,
                    ))
                    &&& actions@.len() == 3
                    &&& (actions@[0] matches Action::Progress { stage, message } && stage is Error
                        && message@ == "No speech detected"@)
                    &&& (actions@[1] matches Action::Notify { message } && message@
                        == "No speech detected"@)
                    &&& actions@[2] is SetIdle
                }
                &&& (trimmed.len() > 0 && is_hallucination_spec(t@)) ==> {
                    &&& final(self).phase is Done
                    &&& final(self).outcome == Some(Result::<String, PipelineError>::Err(
                        PipelineError::HallucinatedTranscript,
                    ))
                    &&& actions@.len() == 2
                    &&& (actions@[0] matches Action::Progress { stage, message } && stage is Error
                        && message@ == "No speech detected"@)
                    &&& actions@[1] is SetIdle
                }
                &&& (trimmed.len() > 0 && !is_hallucination_spec(t@) && trimmed.len()
                    < MIN_MEANINGFUL_LEN) ==> {
                    &&& final(self).phase is Done
                    &&& final(self).outcome == Some(Result::<String, PipelineError>::Err(
                        PipelineError::TranscriptTooShort,
                    ))
                    &&& actions@.len() == 2
                    &&& (actions@[0] matches Action::Progress { stage, message } && stage is Error
                        && message@ == "Recording too short"@)
                    &&& actions@[1] is SetIdle
                }
                &&& (trimmed.len() >= MIN_MEANINGFUL_LEN && !is_hallucination_spec(t@)) ==> {
                    &&& final(self).raw_text@ == t@
                    &&& old(self).settings.ai_polish_enabled ==> {
                        &&& final(self).phase is AwaitPolish
                        &&& final(self).polish_source@ == t@
                        &&& actions@.len() == 2
                        &&& (actions@[0] matches Action::Progress { stage, message }
                            && stage is Polishing && message@ == "Processing..."@)
                        &&& (actions@[1] matches Action::RunPolish { api_key, text }
                            && Option::Some(api_key) == old(self).keys.openai && text@ == t@)
                        &&& polish_count(actions@) == 1
                    }
                    &&& !old(self).settings.ai_polish_enabled ==> {
                        &&& final(self).phase is AwaitClipboard
                        &&& final(self).final_text@ == t@
                        &&& actions@.len() == 2
                        &&& (actions@[1] matches Action::WriteClipboard { text } && text@ == t@)
                        &&& provider_call_count(actions@) == 0
                    }
                }
            }),
    {
        broadcast use lemma_counts_push, lemma_idle_count_concat, lemma_provider_count_concat;

        let mut actions: Vec<Action> = Vec::new();
        match result {
            Result::Err(e) => {
                let mut msg = String::from_str("Transcription failed: ");
                msg.append(e.as_str());
                actions.push(Action::Progress { stage: Stage::Error, message: msg });
                actions.push(Action::Notify { message: String::from_str("Transcription failed") });
                actions.push(Action::SetIdle);
                self.phase = Phase::Done;
                self.outcome = Option::Some(
                    Result::Err(PipelineError::ProviderFailed { detail: e }),
                );
                self.idles = 1;
                self.trace = Ghost(self.trace@ + actions@);
                actions
            },
            Result::Ok(t) => {
                let chars = str_to_chars(t.as_str());
                let trimmed = trim_chars(&chars);
                if trimmed.len() == 0 {
                    actions.push(
                        Action::Progress {
                            stage: Stage::Error,
                            message: String::from_str("No speech detected"),
                        },
                    );
                    actions.push(
                        Action::Notify { message: String::from_str("No speech detected") },
                    );
                    actions.push(Action::SetIdle);
                    self.phase = Phase::Done;
                    self.outcome = Option::Some(Result::Err(PipelineError::EmptyTranscript));
                    self.idles = 1;
                    self.trace = Ghost(self.trace@ + actions@);
                    return actions;
                }
                if is_hallucination(t.as_str()) {
                    actions.push(
                        Action::Progress {
                            stage: Stage::Error,
                            message: String::from_str("No speech detected"),
                        },
                    );
                    actions.push(Action::SetIdle);
                    self.phase = Phase::Done;
                    self.outcome = Option::Some(Result::Err(PipelineError::HallucinatedTranscript));
                    self.idles = 1;
                    self.trace = Ghost(self.trace@ + actions@);
                    return actions;
                }
                if trimmed.len() < MIN_MEANINGFUL_LEN {
                    actions.push(
                        Action::Progress {
                            stage: Stage::Error,
                            message: String::from_str("Recording too short"),
                        },
                    );
                    actions.push(Action::SetIdle);
                    self.phase = Phase::Done;
                    self.outcome = Option::Some(Result::Err(PipelineError::TranscriptTooShort));
                    self.idles = 1;
                    self.trace = Ghost(self.trace@ + actions@);
                    return actions;
                }
                self.raw_text = t.clone();
                if self.settings.ai_polish_enabled {
                    let key = match clone_opt_string(&self.keys.openai) {
                        Option::Some(k) => k,
                        Option::None => {
                            // wf rules this out: the audio step verified the
                            // polish key before taking this path.
                            proof {
                                assert(false);
                            }
                            String::new()
                        },
                    };
                    self.polish_source = t.clone();
                    actions.push(
                        Action::Progress {
                            stage: Stage::Polishing,
                            message: String::from_str("Processing..."),
                        },
                    );
                    actions.push(Action::RunPolish { api_key: key, text: t });
                    self.phase = Phase::AwaitPolish;
                    self.trace = Ghost(self.trace@ + actions@);
                    actions
                } else {
                    self.to_paste_stage(t)
                }
            },
        }
    }

    /// Consumes the polish completion. A failed or misfiring polish falls
    /// back to the raw text rather than failing the run; on the ensemble
    /// path the settled text is still checked against the hallucination
    /// list before it is pasted.
    pub fn on_polish_outcome(&mut self, result: Result<String, String>) -> (actions: Vec<Action>)
        requires
            old(self).wf(),
            old(self).phase is AwaitPolish,
        ensures
            final(self).wf(),
            final(self).settings == old(self).settings,
            final(self).keys == old(self).keys,
            final(self).raw_text == old(self).raw_text,
            final(self).ensemble_run == old(self).ensemble_run,
            idle_count(actions@) == final(self).idles - old(self).idles,
            final(self).trace@ == old(self).trace@ + actions@,
            ({
                let chosen = match result {
                    Result::Ok(t) => polish_acceptance(old(self).polish_source@, t@),
                    Result::Err(_) => old(self).polish_source@,
                };
                &&& (old(self).ensemble_run && is_hallucination_spec(chosen)) ==> {
                    &&& final(self).phase is Done
                    &&& final(self).outcome == Some(Result::<String, PipelineError>::Err(
                        PipelineError::HallucinatedTranscript,
                    ))
                    &&& actions@.len() == 2
                    &&& (actions@[0] matches Action::Progress { stage, message } && stage is Error
                        && message@ == "No speech detected"@)
                    &&& actions@[1] is SetIdle
                }
                &&& !(old(self).ensemble_run && is_hallucination_spec(chosen)) ==> {
                    &&& final(self).phase is AwaitClipboard
                    &&& final(self).final_text@ == chosen
                    &&& actions@.len() == 2
                    &&& (actions@[1] matches Action::WriteClipboard { text } && text@ == chosen)
                    &&& provider_call_count(actions@) == 0
                    &&& forall|sn: Option<Seq<char>>, c0: Seq<char>|
                        clipboard_after(actions@, sn, c0) == chosen
                }
            }),
    {
        broadcast use lemma_counts_push, lemma_idle_count_concat, lemma_provider_count_concat;

        let chosen = match result {
            Result::Ok(t) => accept_polish(&self.polish_source, t),
            Result::Err(_) => self.polish_source.clone(),
        };
        if self.ensemble_run && is_hallucination(chosen.as_str()) {
            let mut actions: Vec<Action> = Vec::new();
            actions.push(
                Action::Progress {
                    stage: Stage::Error,
                    message: String::from_str("No speech detected"),
                },
            );
            actions.push(Action::SetIdle);
            self.phase = Phase::Done;
            self.outcome = Option::Some(Result::Err(PipelineError::HallucinatedTranscript));
            self.idles = 1;
            self.trace = Ghost(self.trace@ + actions@);
            actions
        } else {
            self.to_paste_stage(chosen)
        }
    }

    /// Consumes the fusion completion. Fusion failure ends the run (there
    /// is no meaningful fallback once divergent transcripts must merge);
    /// the fused text is checked against the hallucination list before it
    /// is pasted.
    pub fn on_fusion_outcome(&mut self, result: Result<String, String>) -> (actions: Vec<Action>)
        requires
            old(self).wf(),
            old(self).phase is AwaitFusion,
        ensures
            final(self).wf(),
            final(self).settings == old(self).settings,
            final(self).keys == old(self).keys,
            final(self).raw_text == old(self).raw_text,
            final(self).ensemble_run == old(self).ensemble_run,
            idle_count(actions@) == final(self).idles - old(self).idles,
            final(self).trace@ == old(self).trace@ + actions@,
            result matches Err(e) ==> {
                &&& final(self).phase is Done
                &&& (final(self).outcome matches Some(o) && o matches Err(pe) && pe matches
                    PipelineError::FusionFailed { detail } && detail@ == e@)
                &&& actions@.len() == 3
                &&& (actions@[0] matches Action::Progress { stage, message } && stage is Error
                    && message@ == "Ensemble transcription failed: Fusion failed: "@ + e@)
                &&& (actions@[1] matches Action::Notify { message } && message@
                    == "Transcription failed"@)
                &&& actions@[2] is SetIdle
            },
            result matches Ok(t) ==> {
                &&& is_hallucination_spec(t@) ==> {
                    &&& final(self).phase is Done
                    &&& final(self).outcome == Some(Result::<String, PipelineError>::Err(
                        PipelineError::HallucinatedTranscript,
                    ))
                    &&& actions@.len() == 2
                    &&& (actions@[0] matches Action::Progress { stage, message } && stage is Error
                        && message@ == "No speech detected"@)
                    &&& actions@[1] is SetIdle
                }
                &&& !is_hallucination_spec(t@) ==> {
                    &&& final(self).phase is AwaitClipboard
                    &&& final(self).final_text@ == t@
                    &&& actions@.len() == 2
                    &&& (actions@[1] matches Action::WriteClipboard { text } && text@ == t@)
                    &&& provider_call_count(actions@) == 0
                }
            },
    {
        broadcast use lemma_counts_push, lemma_idle_count_concat, lemma_provider_count_concat;

        match result {
            Result::Err(e) => {
                let mut actions: Vec<Action> = Vec::new();
                let mut msg = String::from_str("Ensemble transcription failed: Fusion failed: ");
                msg.append(e.as_str());
                actions.push(Action::Progress { stage: Stage::Error, message: msg });
                actions.push(Action::Notify { message: String::from_str("Transcription failed") });
                actions.push(Action::SetIdle);
                self.phase = Phase::Done;
                self.outcome = Option::Some(Result::Err(PipelineError::FusionFailed { detail: e }));
                self.idles = 1;
                self.trace = Ghost(self.trace@ + actions@);
                actions
            },
            Result::Ok(t) => {
                if is_hallucination(t.as_str()) {
                    let mut actions: Vec<Action> = Vec::new();
                    actions.push(
                        Action::Progress {
                            stage: Stage::Error,
                            message: String::from_str("No speech detected"),
                        },
                    );
                    actions.push(Action::SetIdle);
                    self.phase = Phase::Done;
                    self.outcome = Option::Some(Result::Err(PipelineError::HallucinatedTranscript));
                    self.idles = 1;
                    self.trace = Ghost(self.trace@ + actions@);
                    actions
                } else {
                    self.to_paste_stage(t)
                }
            },
        }
    }

    /// Consumes the clipboard write's outcome. A failed write is the one
    /// paste-stage error with no fallback: the run ends. A successful write
    /// moves on to the paste attempt.
    pub fn on_clipboard_write(&mut self, ok: bool) -> (actions: Vec<Action>)
        requires
            old(self).wf(),
            old(self).phase is AwaitClipboard,
        ensures
            final(self).wf(),
            final(self).settings == old(self).settings,
            final(self).final_text == old(self).final_text,
            final(self).raw_text == old(self).raw_text,
            idle_count(actions@) == final(self).idles - old(self).idles,
            final(self).trace@ == old(self).trace@ + actions@,
            !ok ==> {
                &&& final(self).phase is Done
                &&& final(self).outcome == Some(Result::<String, PipelineError>::Err(
                    PipelineError::ClipboardWriteFailed,
                ))
                &&& actions@.len() == 3
                &&& (actions@[0] matches Action::Progress { stage, message } && stage is Error
                    && message@ == "Failed to write to clipboard"@)
                &&& (actions@[1] matches Action::Notify { message } && message@
                    == "Failed to copy text to clipboard"@)
                &&& actions@[2] is SetIdle
            },
            ok ==> {
                &&& final(self).phase is AwaitPaste
                &&& actions@.len() == 1
                &&& actions@[0] is AttemptPaste
                &&& forall|sn: Option<Seq<char>>, c0: Seq<char>|
                    clipboard_after(actions@, sn, c0) == c0
            },
    {
        broadcast use lemma_counts_push, lemma_idle_count_concat, lemma_provider_count_concat;

        let mut actions: Vec<Action> = Vec::new();
        if !ok {
            actions.push(
                Action::Progress {
                    stage: Stage::Error,
                    message: String::from_str("Failed to write to clipboard"),
                },
            );
            actions.push(
                Action::Notify { message: String::from_str("Failed to copy text to clipboard") },
            );
            actions.push(Action::SetIdle);
            self.phase = Phase::Done;
            self.outcome = Option::Some(Result::Err(PipelineError::ClipboardWriteFailed));
            self.idles = 1;
            self.trace = Ghost(self.trace@ + actions@);
            actions
        } else {
            actions.push(Action::AttemptPaste);
            self.phase = Phase::AwaitPaste;
            self.trace = Ghost(self.trace@ + actions@);
            proof {
                assert forall|sn: Option<Seq<char>>, c0: Seq<char>|
                    clipboard_after(actions@, sn, c0) == c0 by {
                    assert(clipboard_after(actions@.drop_first(), sn, c0) == c0);
                }
            }
            actions
        }
    }

    /// Consumes the paste attempt's outcome and ends the run. After a
    /// delivered keystroke the clipboard is restored and the correction
    /// window scheduled; after a failure or a missing permission the final
    /// text is left on the clipboard and the user is told to paste by hand.
    /// Every branch persists the history entry, reports completion, and
    /// resets the state to Idle exactly once; the run's result is the final
    /// text whatever the paste outcome.
    pub fn on_paste_outcome(&mut self, outcome: PasteOutcome) -> (actions: Vec<Action>)
        requires
            old(self).wf(),
            old(self).phase is AwaitPaste,
        ensures
            final(self).wf(),
            final(self).phase is Done,
            final(self).final_text == old(self).final_text,
            (final(self).outcome matches Some(o) && o matches Ok(t) && t@ == old(
                self,
            ).final_text@),
            idle_count(actions@) == 1,
            provider_call_count(actions@) == 0,
            final(self).trace@ == old(self).trace@ + actions@,
            // The history entry keeps the raw text exactly when polish or
            // ensemble could have altered it.
            ({
                let keep_raw = old(self).settings.ai_polish_enabled || old(
                    self,
                ).settings.ensemble_enabled;
                let base: int = if outcome is Pasted {
                    3int
                } else {
                    0int
                };
                &&& (actions@[base] matches Action::PersistHistory { text, raw } && text@ == old(
                    self,
                ).final_text@ && (keep_raw ==> (raw matches Some(rt) && rt@ == old(
                    self,
                ).raw_text@)) && (!keep_raw ==> raw is None))
                &&& actions@.last() is SetIdle
            }),
            outcome is Pasted ==> {
                &&& actions@.len() == 6
                &&& (actions@[0] matches Action::SettleDelay { ms } && ms == SETTLE_DELAY_MS)
                &&& actions@[1] is RestoreClipboard
                &&& (actions@[2] matches Action::ScheduleCorrectionWindow { text, delay_ms }
                    && text@ == old(self).final_text@ && delay_ms == CORRECTION_WINDOW_MS)
                &&& (actions@[4] matches Action::Progress { stage, message } && stage is Complete
                    && message@ == ""@)
                // After a successful paste the snapshot is restored; with
                // nothing to restore the pasted text stays.
                &&& forall|sn: Option<Seq<char>>, c0: Seq<char>|
                    clipboard_after(actions@, sn, c0) == crate::clipboard::protocol_outcome(
                        sn,
                        c0,
                        true,
                    )
            },
            outcome is Failed ==> {
                &&& actions@.len() == 4
                &&& (actions@[1] matches Action::Notify { message } && message@
                    == "Text copied - paste with Cmd+V"@)
                &&& (actions@[2] matches Action::Progress { stage, message } && stage is Complete
                    && message@ == ""@)
                // After a failed paste the clipboard is left alone: the
                // final text stays available for a manual paste.
                &&& forall|sn: Option<Seq<char>>, c0: Seq<char>|
                    clipboard_after(actions@, sn, c0) == c0
            },
            outcome is NoPermission ==> {
                &&& actions@.len() == 4
                &&& (actions@[1] matches Action::Notify { message } && message@
                    == "Add TTP to Accessibility in Settings, then paste with Cmd+V"@)
                &&& (actions@[2] matches Action::Progress { stage, message } && stage is Complete
                    && message@ == ""@)
                &&& forall|sn: Option<Seq<char>>, c0: Seq<char>|
                    clipboard_after(actions@, sn, c0) == c0
            },
    {
        broadcast use lemma_counts_push, lemma_idle_count_concat, lemma_provider_count_concat;

        proof {
            reveal_strlit("");
            assert(""@ =~= Seq::<char>::empty());
        }
        let mut actions: Vec<Action> = Vec::new();
        if outcome == PasteOutcome::Pasted {
            actions.push(Action::SettleDelay { ms: SETTLE_DELAY_MS });
            actions.push(Action::RestoreClipboard);
            actions.push(
                Action::ScheduleCorrectionWindow {
                    text: self.final_text.clone(),
                    delay_ms: CORRECTION_WINDOW_MS,
                },
            );
        }
        let keep_raw = self.settings.ai_polish_enabled || self.settings.ensemble_enabled;
        let raw = if keep_raw {
            Option::Some(self.raw_text.clone())
        } else {
            Option::None
        };
        actions.push(Action::PersistHistory { text: self.final_text.clone(), raw });
        if outcome == PasteOutcome::Failed {
            actions.push(
                Action::Notify { message: String::from_str("Text copied - paste with Cmd+V") },
            );
        } else if outcome == PasteOutcome::NoPermission {
            actions.push(
                Action::Notify {
                    message: String::from_str(
                        "Add TTP to Accessibility in Settings, then paste with Cmd+V",
                    ),
                },
            );
        }
        actions.push(Action::Progress { stage: Stage::Complete, message: String::new() });
        actions.push(Action::SetIdle);
        self.phase = Phase::Done;
        self.outcome = Option::Some(Result::Ok(self.final_text.clone()));
        self.idles = 1;
        self.trace = Ghost(self.trace@ + actions@);
        proof {
            assert forall|sn: Option<Seq<char>>, c0: Seq<char>|
                clipboard_after(actions@, sn, c0) == (if outcome is Pasted {
                    crate::clipboard::protocol_outcome(sn, c0, true)
                } else {
                    c0
                }) by {
                lemma_clipboard_untouched_suffix(actions@, sn, c0, outcome);
            }
        }
        actions
    }

    /// The run's result, available once the phase is Done.
    pub fn result(&self) -> (r: &Option<Result<String, PipelineError>>)
        ensures
            r == self.outcome,
    {
        &self.outcome
    }
}

proof fn lemma_clipboard_no_touch(a: Seq<Action>, sn: Option<Seq<char>>, c0: Seq<char>)
    requires
        forall|i: int|
            0 <= i < a.len() ==> !(#[trigger] a[i] is WriteClipboard) && !(a[i]
                is RestoreClipboard),
    ensures
        clipboard_after(a, sn, c0) == c0,
    decreases a.len(),
{
    if a.len() > 0 {
        assert(!(a[0] is WriteClipboard) && !(a[0] is RestoreClipboard));
        let b = a.drop_first();
        assert(forall|i: int| 0 <= i < b.len() ==> b[i] == a[i + 1]);
        lemma_clipboard_no_touch(b, sn, c0);
    }
}

proof fn lemma_clipboard_untouched_suffix(
    a: Seq<Action>,
    sn: Option<Seq<char>>,
    c0: Seq<char>,
    outcome: PasteOutcome,
)
    requires
        outcome is Pasted ==> a.len() == 6 && !(a[0] is WriteClipboard) && !(a[0]
            is RestoreClipboard) && a[1] is RestoreClipboard && (forall|i: int|
            2 <= i < a.len() ==> !(#[trigger] a[i] is WriteClipboard) && !(a[i]
                is RestoreClipboard)),
        !(outcome is Pasted) ==> forall|i: int|
            0 <= i < a.len() ==> !(#[trigger] a[i] is WriteClipboard) && !(a[i]
                is RestoreClipboard),
    ensures
        clipboard_after(a, sn, c0) == (if outcome is Pasted {
            crate::clipboard::protocol_outcome(sn, c0, true)
        } else {
            c0
        }),
{
    if outcome is Pasted {
        let b = a.drop_first();
        assert(forall|i: int| 0 <= i < b.len() ==> b[i] == a[i + 1]);
        assert(clipboard_after(a, sn, c0) == clipboard_after(b, sn, c0));
        let after_restore = match sn {
            Option::Some(s) => s,
            Option::None => c0,
        };
        let c = b.drop_first();
        assert(forall|i: int| 0 <= i < c.len() ==> c[i] == b[i + 1]);
        assert(clipboard_after(b, sn, c0) == clipboard_after(c, sn, after_restore));
        lemma_clipboard_no_touch(c, sn, after_restore);
    } else {
        lemma_clipboard_no_touch(a, sn, c0);
    }
}

/// The clipboard-guard law, across the whole paste stage. The stage runs as
/// three batches: the one that writes the final text to the clipboard, the
/// one that attempts the paste, and the terminal one. Whatever the clipboard
/// held before, after a successful paste it holds the pre-pipeline snapshot
/// again (the final text when there was nothing to restore), and after a
/// failed paste or a missing permission it holds the final text, ready for
/// a manual paste.
pub proof fn lemma_clipboard_guard(
    write_batch: Seq<Action>,
    attempt_batch: Seq<Action>,
    finish_batch: Seq<Action>,
    t: Seq<char>,
    sn: Option<Seq<char>>,
    c0: Seq<char>,
    paste_ok: bool,
)
    requires
        forall|sn2: Option<Seq<char>>, c2: Seq<char>|
            clipboard_after(write_batch, sn2, c2) == t,
        forall|sn2: Option<Seq<char>>, c2: Seq<char>|
            clipboard_after(attempt_batch, sn2, c2) == c2,
        forall|sn2: Option<Seq<char>>, c2: Seq<char>|
            clipboard_after(finish_batch, sn2, c2) == (if paste_ok {
                crate::clipboard::protocol_outcome(sn2, c2, true)
            } else {
                c2
            }),
    ensures
        clipboard_after(write_batch + attempt_batch + finish_batch, sn, c0)
            == crate::clipboard::protocol_outcome(sn, t, paste_ok),
{
    lemma_clipboard_after_concat(write_batch, attempt_batch, sn, c0);
    lemma_clipboard_after_concat(write_batch + attempt_batch, finish_batch, sn, c0);
}

/// Every pipeline run resets the recording state to Idle exactly once: the
/// step that ends the run emits SetIdle exactly once, no other step emits
/// it, and this holds on the success path and on every error path alike.
pub proof fn lemma_idle_exactly_once(p: Pipeline)
    requires
        p.wf(),
    ensures
        p.phase is Done ==> idle_count(p.trace@) == 1,
        !(p.phase is Done) ==> idle_count(p.trace@) == 0,
{
}

} // verus!
