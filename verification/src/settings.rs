//! Application settings: a single mutable record read at the start of each
//! pipeline invocation.

use vstd::prelude::*;

verus! {

/// Which transcription provider a single-provider run calls.
#[derive(Clone, Copy, Debug, PartialEq, Eq, Structural)]
pub enum TranscriptionProvider {
    OpenAI,
    Groq,
    Gladia,
}

/// The persisted settings record, written atomically as a whole document.
#[derive(Clone, Debug)]
pub struct Settings {
    /// Whether to run the AI polish stage on transcriptions.
    pub ai_polish_enabled: bool,
    /// Whether to run every available provider in parallel and fuse.
    pub ensemble_enabled: bool,
    /// The provider used when ensemble mode is off or unavailable.
    pub transcription_provider: TranscriptionProvider,
    /// The global keyboard shortcut that controls recording.
    pub shortcut: String,
}

/// The shortcut used when none is configured.
pub fn default_shortcut() -> (r: String)
    ensures
        r@ == "Alt+Space"@,
{
    String::from_str("Alt+Space")
}

impl Default for Settings {
    /// The defaults: polish on, ensemble off, the faster provider, and the
    /// standard shortcut.
    fn default() -> (s: Settings)
        ensures
            s.ai_polish_enabled,
            !s.ensemble_enabled,
            s.transcription_provider == TranscriptionProvider::Groq,
            s.shortcut@ == "Alt+Space"@,
    {
        Settings {
            ai_polish_enabled: true,
            ensemble_enabled: false,
            transcription_provider: TranscriptionProvider::Groq,
            shortcut: default_shortcut(),
        }
    }
}

} // verus!
