//! Clipboard guard: snapshots the clipboard before the pipeline writes to
//! it, and decides what to write back after a paste attempt. The discipline
//! is write-then-optionally-restore: restore only after a successful paste,
//! and never restore after a failed one, so the final text stays available
//! for a manual paste.

use vstd::prelude::*;

verus! {

/// Holds the pre-pipeline clipboard content, taken before any write.
#[derive(Clone, Debug)]
pub struct ClipboardGuard {
    snapshot: Option<String>,
}

impl ClipboardGuard {
    /// What the guard saved.
    pub closed spec fn snapshot_spec(&self) -> Option<Seq<char>> {
        match self.snapshot {
            Option::Some(s) => Option::Some(s@),
            Option::None => Option::None,
        }
    }

    /// Saves the current clipboard content, read by the caller; a failed
    /// read is saved as nothing to restore.
    pub fn new(current: Option<String>) -> (g: ClipboardGuard)
        ensures
            g.snapshot_spec() == match current {
                Option::Some(s) => Option::Some(s@),
                Option::None => Option::<Seq<char>>::None,
            },
    {
        ClipboardGuard { snapshot: current }
    }

    /// What a restore writes back: the snapshot when there is one, nothing
    /// otherwise (the pasted text then stays on the clipboard).
    pub fn restore_target(&self) -> (r: &Option<String>)
        ensures
            match r {
                Option::Some(s) => self.snapshot_spec() == Option::Some(s@),
                Option::None => self.snapshot_spec() is None,
            },
    {
        &self.snapshot
    }
}

/// The clipboard content after the protocol runs against a snapshot: an
/// unconditional write of the final text, then a restore only when the
/// paste succeeded and a snapshot exists.
pub open spec fn protocol_outcome(
    snapshot: Option<Seq<char>>,
    text: Seq<char>,
    paste_ok: bool,
) -> Seq<char> {
    if paste_ok {
        match snapshot {
            Option::Some(s) => s,
            Option::None => text,
        }
    } else {
        text
    }
}

} // verus!
