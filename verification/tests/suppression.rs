use input_capture::capture::{should_handle_emergency_stop, CaptureSession};
use input_capture::mouse_control::{MouseControlState, MouseState};

#[test]
fn effective_suppression_invariant() {
    let mut c = MouseControlState::new();
    assert!(!c.is_suppressing());
    c.toggle_suppression(true);
    assert!(c.is_suppressing());
    c.toggle_suppression(false);
    assert!(!c.is_suppressing());
    c.toggle_suppression(true);
    c.trigger_emergency_stop();
    // effective suppression is always `active && !emergency_stop`
    assert!(c.emergency_stop);
    assert!(!c.suppress_active);
    assert!(!c.is_suppressing());
}

#[test]
fn emergency_precedence() {
    let mut c = MouseControlState::new();
    c.toggle_suppression(true);
    c.trigger_emergency_stop();
    assert!(!c.is_suppressing());
    // re-enabling suppression does not clear the latch
    c.toggle_suppression(true);
    assert!(c.suppress_active);
    assert!(c.emergency_stop);
    assert!(!c.is_suppressing());
    c.toggle_suppression(false);
    c.toggle_suppression(true);
    assert!(!c.is_suppressing());
    // only the explicit reset clears it
    c.clear_emergency();
    assert!(c.is_suppressing());
}

#[test]
fn trigger_is_idempotent() {
    let mut c = MouseControlState::new();
    c.trigger_emergency_stop();
    let once = c;
    c.trigger_emergency_stop();
    assert_eq!(c, once);
}

#[test]
fn anchor_capture_timing() {
    let mut c = MouseControlState::new();
    c.mouse_state.update_current_pos(5, 7);
    c.toggle_suppression(true);
    assert_eq!(c.mouse_state.get_original_pos(), (5, 7));
    // while suppression stays active, the anchor never moves
    c.mouse_state.update_current_pos(9, 11);
    c.toggle_suppression(true);
    assert_eq!(c.mouse_state.get_original_pos(), (5, 7));
    // a fresh off-to-on transition re-captures it
    c.toggle_suppression(false);
    c.toggle_suppression(true);
    assert_eq!(c.mouse_state.get_original_pos(), (9, 11));
}

#[test]
fn debounce_idempotence() {
    let mut last: Option<u64> = None;
    // the first trigger always fires
    assert!(should_handle_emergency_stop(&mut last, 1000));
    assert_eq!(last, Some(1000));
    // a second trigger inside the 500ms window is a no-op
    assert!(!should_handle_emergency_stop(&mut last, 1300));
    assert_eq!(last, Some(1000));
    // at the window's edge it fires again
    assert!(should_handle_emergency_stop(&mut last, 1500));
    assert_eq!(last, Some(1500));
}

#[test]
fn session_emergency_stop_debounced() {
    let mut s = CaptureSession::new();
    s.toggle_suppression(true);
    // each `true` stands for exactly one emergency notice published downstream
    assert!(s.handle_emergency_stop(0));
    assert!(!s.control.suppress_active);
    assert!(!s.handle_emergency_stop(100));
    assert!(!s.handle_emergency_stop(499));
    assert!(s.handle_emergency_stop(600));
}

#[test]
fn position_reads() {
    let mut m = MouseState::new();
    assert_eq!(m.get_current_pos(), (0, 0));
    assert_eq!(m.get_original_pos(), (0, 0));
    m.update_current_pos(-3, 1000000);
    assert_eq!(m.get_current_pos(), (-3, 1000000));
    assert_eq!(m.get_original_pos(), (0, 0));
    m.store_original_pos();
    assert_eq!(m.get_original_pos(), (-3, 1000000));
    let mut s = CaptureSession::new();
    let p = s.get_mouse_position();
    assert_eq!((p.x, p.y), (0, 0));
    s.control.mouse_state.update_current_pos(8, 9);
    let p = s.get_mouse_position();
    assert_eq!((p.x, p.y), (8, 9));
}
