//! Core of a voice-to-paste pipeline: a recording state machine with
//! push-to-talk and double-tap hands-free semantics, a multi-provider
//! transcription ensemble, an LLM fusion/polish stage with a retry policy,
//! a clipboard-preserving paste protocol, and a correction-learning loop
//! that feeds a personal dictionary back into future transcriptions.
//!
//! The library holds the decision logic; the surrounding process performs
//! the network calls, file persistence and platform automation, and hands
//! each outcome back as a plain value.

pub mod clipboard;
pub mod credentials;
pub mod dictionary;
pub mod ensemble;
pub mod history;
pub mod pipeline;
pub mod prompts;
pub mod providers;
pub mod recording;
pub mod retry;
pub mod settings;
pub mod state;
pub mod text;
