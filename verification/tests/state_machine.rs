//! Recording state machine behaviour: push-to-talk, double-tap hands-free,
//! tray toggle, and the non-blocking dispatch semantics.

use ttp_core::state::{AppState, InputEffect, RecordingState};

#[test]
fn push_to_talk_starts_and_stops() {
    let mut st = AppState::default();
    let e = st.on_shortcut_pressed(1000);
    assert_eq!(e, InputEffect::StartCapture { hands_free: false });
    assert_eq!(st.recording_state, RecordingState::Recording);
    assert!(!st.hands_free_mode);
    assert!(st.is_recording());

    let e = st.on_shortcut_released();
    assert_eq!(e, InputEffect::StopCapture);
    assert_eq!(st.recording_state, RecordingState::Processing);
}

#[test]
fn double_tap_within_window_starts_hands_free() {
    // A press at t=0 while idle, then (after the quick tap is reset to
    // idle) a second press at t=250 ms: within the 300 ms window, so
    // hands-free recording starts.
    let mut st = AppState::default();
    st.on_shortcut_pressed(0);
    st.on_shortcut_released();
    st.set_state(RecordingState::Idle);
    let e = st.on_shortcut_pressed(250);
    assert_eq!(e, InputEffect::StartCapture { hands_free: true });
    assert_eq!(st.recording_state, RecordingState::Recording);
    assert!(st.hands_free_mode);
}

#[test]
fn press_outside_window_is_independent_push_to_talk() {
    // A press at t=0, then a second press at t=400 ms: past the window, so
    // it behaves as an ordinary push-to-talk press.
    let mut st = AppState::default();
    st.on_shortcut_pressed(0);
    st.on_shortcut_released();
    st.set_state(RecordingState::Idle);
    let e = st.on_shortcut_pressed(400);
    assert_eq!(e, InputEffect::StartCapture { hands_free: false });
    assert_eq!(st.recording_state, RecordingState::Recording);
    assert!(!st.hands_free_mode);
}

#[test]
fn double_tap_stops_hands_free_recording() {
    let mut st = AppState::default();
    st.on_shortcut_pressed(0);
    st.on_shortcut_released();
    st.set_state(RecordingState::Idle);
    st.on_shortcut_pressed(100);
    assert!(st.hands_free_mode);
    // Second tap of the stopping double-tap, within the window.
    let e = st.on_shortcut_pressed(300);
    assert_eq!(e, InputEffect::StopCapture);
    assert_eq!(st.recording_state, RecordingState::Processing);
    assert!(!st.hands_free_mode);
}

#[test]
fn release_keeps_hands_free_recording_running() {
    let mut st = AppState::default();
    st.on_shortcut_pressed(0);
    st.on_shortcut_released();
    st.set_state(RecordingState::Idle);
    st.on_shortcut_pressed(200);
    assert!(st.hands_free_mode);
    let e = st.on_shortcut_released();
    assert_eq!(e, InputEffect::Ignored);
    assert_eq!(st.recording_state, RecordingState::Recording);
}

#[test]
fn press_while_processing_is_ignored() {
    let mut st = AppState::default();
    st.set_state(RecordingState::Processing);
    let e = st.on_shortcut_pressed(500);
    assert_eq!(e, InputEffect::Ignored);
    assert_eq!(st.recording_state, RecordingState::Processing);
}

#[test]
fn tray_toggle_forces_hands_free() {
    let mut st = AppState::default();
    let e = st.on_tray_toggle();
    assert_eq!(e, InputEffect::StartCapture { hands_free: true });
    assert!(st.hands_free_mode);
    assert_eq!(st.recording_state, RecordingState::Recording);

    let e = st.on_tray_toggle();
    assert_eq!(e, InputEffect::StopCapture);
    assert_eq!(st.recording_state, RecordingState::Processing);

    // Already busy: a further toggle does nothing.
    let e = st.on_tray_toggle();
    assert_eq!(e, InputEffect::Ignored);
    assert_eq!(st.recording_state, RecordingState::Processing);
}

#[test]
fn press_at_exact_window_edge_is_not_a_double_tap() {
    let mut st = AppState::default();
    st.on_shortcut_pressed(0);
    st.on_shortcut_released();
    st.set_state(RecordingState::Idle);
    // The window is strict: a press exactly 300 ms later is an ordinary
    // push-to-talk press.
    let e = st.on_shortcut_pressed(300);
    assert_eq!(e, InputEffect::StartCapture { hands_free: false });
    assert!(!st.hands_free_mode);
}

#[test]
fn initial_state_is_idle() {
    let st = AppState::default();
    assert!(st.is_idle());
    assert!(!st.is_recording());
    assert!(!st.hands_free_mode);
    assert!(st.last_shortcut_time.is_none());
}
