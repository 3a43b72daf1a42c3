//! Context for the recording in progress: the audio file the external
//! capture component is writing, if any.

use vstd::prelude::*;

verus! {

/// Tracks the file path of the recording currently being captured.
#[derive(Clone, Debug)]
pub struct RecordingContext {
    pub current_file: Option<String>,
}

impl Default for RecordingContext {
    /// Initially no recording is in progress.
    fn default() -> (c: RecordingContext)
        ensures
            c.current_file is None,
    {
        RecordingContext { current_file: Option::None }
    }
}

} // verus!
