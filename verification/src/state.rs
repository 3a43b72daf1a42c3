//! Recording state machine: tracks Idle / Recording / Processing, arbitrates
//! push-to-talk against hands-free (double-tap) input, and exposes every
//! transition as a pure function of the current state and the event so the
//! surrounding process can hold it behind a non-blocking lock.

use vstd::prelude::*;

verus! {

/// The fixed double-tap detection window, in milliseconds.
pub const DOUBLE_TAP_THRESHOLD_MS: u64 = 300;

/// The three phases of the recording lifecycle. Exactly one holds at any
/// instant; only the pipeline moves Processing back to Idle.
#[derive(Clone, Copy, Debug, PartialEq, Eq, Structural)]
pub enum RecordingState {
    Idle,
    Recording,
    Processing,
}

/// What a state transition asks the surrounding process to do: begin audio
/// capture, end it and hand the file to the pipeline, or nothing.
#[derive(Clone, Copy, Debug, PartialEq, Eq, Structural)]
pub enum InputEffect {
    Ignored,
    StartCapture { hands_free: bool },
    StopCapture,
}

/// The process-wide shared state: recording phase, hands-free flag, and the
/// time of the last shortcut press for double-tap detection.
#[derive(Clone, Copy, Debug)]
pub struct AppState {
    pub recording_state: RecordingState,
    pub hands_free_mode: bool,
    pub last_shortcut_time: Option<u64>,
}

/// Whether a press at `now_ms` falls within the double-tap window of the
/// previous press. A clock that did not advance still counts as within the
/// window, matching a saturating elapsed-time reading.
pub open spec fn is_double_tap(last: Option<u64>, now_ms: u64) -> bool {
    match last {
        Option::Some(l) => now_ms < l + DOUBLE_TAP_THRESHOLD_MS,
        Option::None => false,
    }
}

/// The successor state and effect of a shortcut press at `now_ms`.
pub open spec fn press_transition(s: AppState, now_ms: u64) -> (AppState, InputEffect) {
    let stamped = AppState { last_shortcut_time: Option::Some(now_ms), ..s };
    if is_double_tap(s.last_shortcut_time, now_ms) {
        match s.recording_state {
            RecordingState::Idle => (
                AppState {
                    recording_state: RecordingState::Recording,
                    hands_free_mode: true,
                    ..stamped
                },
                InputEffect::StartCapture { hands_free: true },
            ),
            RecordingState::Recording => if s.hands_free_mode {
                (
                    AppState {
                        recording_state: RecordingState::Processing,
                        hands_free_mode: false,
                        ..stamped
                    },
                    InputEffect::StopCapture,
                )
            } else {
                (stamped, InputEffect::Ignored)
            },
            RecordingState::Processing => (stamped, InputEffect::Ignored),
        }
    } else {
        if s.recording_state == RecordingState::Idle {
            (
                AppState {
                    recording_state: RecordingState::Recording,
                    hands_free_mode: false,
                    ..stamped
                },
                InputEffect::StartCapture { hands_free: false },
            )
        } else {
            (stamped, InputEffect::Ignored)
        }
    }
}

/// The successor state and effect of a shortcut release: ends push-to-talk
/// recording, never hands-free recording.
pub open spec fn release_transition(s: AppState) -> (AppState, InputEffect) {
    if !s.hands_free_mode && s.recording_state == RecordingState::Recording {
        (
            AppState { recording_state: RecordingState::Processing, ..s },
            InputEffect::StopCapture,
        )
    } else {
        (s, InputEffect::Ignored)
    }
}

/// The successor state and effect of a tray-menu toggle: a click has no
/// matching release event, so starting from the tray forces hands-free mode.
pub open spec fn tray_toggle_transition(s: AppState) -> (AppState, InputEffect) {
    match s.recording_state {
        RecordingState::Idle => (
            AppState {
                recording_state: RecordingState::Recording,
                hands_free_mode: true,
                ..s
            },
            InputEffect::StartCapture { hands_free: true },
        ),
        RecordingState::Recording => (
            AppState { recording_state: RecordingState::Processing, ..s },
            InputEffect::StopCapture,
        ),
        RecordingState::Processing => (s, InputEffect::Ignored),
    }
}

impl Default for AppState {
    /// The initial state: idle, push-to-talk, no press seen yet.
    fn default() -> (s: AppState)
        ensures
            s.recording_state == RecordingState::Idle,
            !s.hands_free_mode,
            s.last_shortcut_time is None,
    {
        AppState {
            recording_state: RecordingState::Idle,
            hands_free_mode: false,
            last_shortcut_time: Option::None,
        }
    }
}

impl AppState {
    /// Replaces the recording phase, leaving the other fields alone.
    pub fn set_state(&mut self, state: RecordingState)
        ensures
            final(self).recording_state == state,
            final(self).hands_free_mode == old(self).hands_free_mode,
            final(self).last_shortcut_time == old(self).last_shortcut_time,
    {
        self.recording_state = state;
    }

    /// Whether audio capture is in progress.
    pub fn is_recording(&self) -> (r: bool)
        ensures
            r == (self.recording_state == RecordingState::Recording),
    {
        self.recording_state == RecordingState::Recording
    }

    /// Whether the machine is ready for a new recording.
    pub fn is_idle(&self) -> (r: bool)
        ensures
            r == (self.recording_state == RecordingState::Idle),
    {
        self.recording_state == RecordingState::Idle
    }

    /// Handles a shortcut press at `now_ms` (a monotonic millisecond clock):
    /// a second press within the double-tap window toggles hands-free
    /// recording; a lone press while idle starts push-to-talk recording.
    pub fn on_shortcut_pressed(&mut self, now_ms: u64) -> (e: InputEffect)
        ensures
            (*final(self), e) == press_transition(*old(self), now_ms),
    {
        let double_tap = match self.last_shortcut_time {
            Option::Some(l) => {
                if now_ms >= l {
                    now_ms - l < DOUBLE_TAP_THRESHOLD_MS
                } else {
                    true
                }
            },
            Option::None => false,
        };
        self.last_shortcut_time = Option::Some(now_ms);
        if double_tap {
            match self.recording_state {
                RecordingState::Idle => {
                    self.hands_free_mode = true;
                    self.recording_state = RecordingState::Recording;
                    InputEffect::StartCapture { hands_free: true }
                },
                RecordingState::Recording => {
                    if self.hands_free_mode {
                        self.recording_state = RecordingState::Processing;
                        self.hands_free_mode = false;
                        InputEffect::StopCapture
                    } else {
                        InputEffect::Ignored
                    }
                },
                RecordingState::Processing => InputEffect::Ignored,
            }
        } else {
            if self.recording_state == RecordingState::Idle {
                self.hands_free_mode = false;
                self.recording_state = RecordingState::Recording;
                InputEffect::StartCapture { hands_free: false }
            } else {
                InputEffect::Ignored
            }
        }
    }

    /// Handles a shortcut release: stops push-to-talk recording, and leaves
    /// hands-free recording running.
    pub fn on_shortcut_released(&mut self) -> (e: InputEffect)
        ensures
            (*final(self), e) == release_transition(*old(self)),
    {
        if !self.hands_free_mode && self.is_recording() {
            self.recording_state = RecordingState::Processing;
            InputEffect::StopCapture
        } else {
            InputEffect::Ignored
        }
    }

    /// Handles a tray-menu toggle.
    pub fn on_tray_toggle(&mut self) -> (e: InputEffect)
        ensures
            (*final(self), e) == tray_toggle_transition(*old(self)),
    {
        match self.recording_state {
            RecordingState::Idle => {
                self.hands_free_mode = true;
                self.recording_state = RecordingState::Recording;
                InputEffect::StartCapture { hands_free: true }
            },
            RecordingState::Recording => {
                self.recording_state = RecordingState::Processing;
                InputEffect::StopCapture
            },
            RecordingState::Processing => InputEffect::Ignored,
        }
    }
}

/// A press inside the double-tap window of the previous press, while idle,
/// starts hands-free recording; a press at or past the window's edge starts
/// an ordinary push-to-talk recording instead.
pub proof fn lemma_double_tap_window(s: AppState, t0: u64, t1: u64)
    requires
        s.recording_state == RecordingState::Idle,
        s.last_shortcut_time == Option::<u64>::Some(t0),
        t0 <= t1,
    ensures
        t1 - t0 < DOUBLE_TAP_THRESHOLD_MS ==> press_transition(s, t1) == (
            AppState {
                recording_state: RecordingState::Recording,
                hands_free_mode: true,
                last_shortcut_time: Option::Some(t1),
            },
            InputEffect::StartCapture { hands_free: true },
        ),
        t1 - t0 >= DOUBLE_TAP_THRESHOLD_MS ==> press_transition(s, t1) == (
            AppState {
                recording_state: RecordingState::Recording,
                hands_free_mode: false,
                last_shortcut_time: Option::Some(t1),
            },
            InputEffect::StartCapture { hands_free: false },
        ),
{
}

} // verus!
