use input_capture::capture::{CaptureOutput, CaptureSession};
use input_capture::keys::{Button, Key, RawEvent};

fn publish(out: CaptureOutput) -> Option<(String, String)> {
    match out {
        CaptureOutput::Publish(ev) => Some((ev.event_type, ev.details)),
        _ => None,
    }
}

#[test]
fn tracking_gate_drops_everything() {
    let mut s = CaptureSession::new();
    let events = [
        RawEvent::MouseMove { x: 3, y: 4 },
        RawEvent::ButtonPress { button: Button::Left },
        RawEvent::ButtonRelease { button: Button::Left },
        RawEvent::KeyPress { key: Key::Other(30) },
        RawEvent::KeyRelease { key: Key::Other(30) },
        RawEvent::KeyPress { key: Key::Escape },
        RawEvent::Other,
    ];
    for (i, ev) in events.iter().enumerate() {
        let out = s.process_event(*ev, i as u64 * 1000);
        assert!(matches!(out, CaptureOutput::Dropped));
    }
    // a no-op in every respect: even the position was not touched
    let p = s.get_mouse_position();
    assert_eq!((p.x, p.y), (0, 0));
    assert!(!s.control.emergency_stop);
}

#[test]
fn motion_throttle_rate() {
    let mut s = CaptureSession::new();
    assert!(s.start_tracking());
    s.set_mouse_logging(true);
    let mut published = 0;
    for t in 0..100u64 {
        let out = s.process_event(RawEvent::MouseMove { x: t as i32, y: t as i32 }, t);
        if let CaptureOutput::Publish(ev) = out {
            assert_eq!(ev.event_type, "mouse_move");
            published += 1;
        }
    }
    // 1ms spacing over 100ms with a 16ms throttle: accepted at 0, 16, ..., 96
    assert_eq!(published, 7);
}

#[test]
fn motion_updates_position_even_when_dropped() {
    let mut s = CaptureSession::new();
    assert!(s.start_tracking());
    // mouse logging stays off: nothing is published, the position still moves
    let out = s.process_event(RawEvent::MouseMove { x: 42, y: -7 }, 0);
    assert!(matches!(out, CaptureOutput::Dropped));
    let p = s.get_mouse_position();
    assert_eq!((p.x, p.y), (42, -7));
}

#[test]
fn key_dedup() {
    let mut s = CaptureSession::new();
    assert!(s.start_tracking());
    s.set_keyboard_logging(true);
    let a = Key::Other(30);
    let mut presses = 0;
    for t in 0..10u64 {
        if let Some((kind, details)) = publish(s.process_event(RawEvent::KeyPress { key: a }, t)) {
            assert_eq!(kind, "keyboard_press");
            assert_eq!(details, "key: unknown(30)");
            presses += 1;
        }
    }
    assert_eq!(presses, 1);
    let (kind, details) = publish(s.process_event(RawEvent::KeyRelease { key: a }, 10)).unwrap();
    assert_eq!(kind, "keyboard_release");
    assert_eq!(details, "key: unknown(30)");
    // a second release of an already-released key is dropped
    let out = s.process_event(RawEvent::KeyRelease { key: a }, 11);
    assert!(matches!(out, CaptureOutput::Dropped));
    // after the release, one more press goes through again
    let (kind, _) = publish(s.process_event(RawEvent::KeyPress { key: a }, 12)).unwrap();
    assert_eq!(kind, "keyboard_press");
}

#[test]
fn keyboard_logging_gates_keys() {
    let mut s = CaptureSession::new();
    assert!(s.start_tracking());
    let out = s.process_event(RawEvent::KeyPress { key: Key::Space }, 0);
    assert!(matches!(out, CaptureOutput::Dropped));
}

#[test]
fn button_throttle() {
    let mut s = CaptureSession::new();
    assert!(s.start_tracking());
    s.set_mouse_logging(true);
    let press = RawEvent::ButtonPress { button: Button::Left };
    let (kind, details) = publish(s.process_event(press, 0)).unwrap();
    assert_eq!(kind, "mouse_press");
    assert_eq!(details, "button: Left");
    // 10ms later: inside the 50ms button throttle
    assert!(matches!(s.process_event(press, 10), CaptureOutput::Dropped));
    // 60ms after the accepted press: the release goes through
    let (kind, details) =
        publish(s.process_event(RawEvent::ButtonRelease { button: Button::Left }, 60)).unwrap();
    assert_eq!(kind, "mouse_release");
    assert_eq!(details, "button: Left");
}

#[test]
fn escape_triggers_debounced_emergency_stop() {
    let mut s = CaptureSession::new();
    assert!(s.start_tracking());
    // keyboard logging is off; the emergency key bypasses it
    let out = s.process_event(RawEvent::KeyPress { key: Key::Escape }, 0);
    assert!(matches!(out, CaptureOutput::EmergencyNotice));
    assert!(s.control.emergency_stop);
    assert!(!s.control.suppress_active);
    // a key-repeat inside the 500ms window stays silent
    let out = s.process_event(RawEvent::KeyPress { key: Key::Escape }, 100);
    assert!(matches!(out, CaptureOutput::Dropped));
    // past the window it fires again
    let out = s.process_event(RawEvent::KeyPress { key: Key::Escape }, 600);
    assert!(matches!(out, CaptureOutput::EmergencyNotice));
}

#[test]
fn start_tracking_is_idempotent() {
    let mut s = CaptureSession::new();
    assert!(s.start_tracking());
    // a second start while already running asks for no second worker
    assert!(!s.start_tracking());
    s.stop_tracking();
    assert!(s.start_tracking());
}

#[test]
fn end_to_end_scenario() {
    let mut s = CaptureSession::new();
    assert!(s.start_tracking());
    s.set_mouse_logging(true);

    let (kind, details) = publish(s.process_event(RawEvent::MouseMove { x: 10, y: 20 }, 0)).unwrap();
    assert_eq!(kind, "mouse_move");
    assert_eq!(details, "x: 10, y: 20");
    let p = s.get_mouse_position();
    assert_eq!((p.x, p.y), (10, 20));

    // 5ms later: throttled, but the position was still written
    let out = s.process_event(RawEvent::MouseMove { x: 10, y: 20 }, 5);
    assert!(matches!(out, CaptureOutput::Dropped));
    let p = s.get_mouse_position();
    assert_eq!((p.x, p.y), (10, 20));

    // 20ms after that: published again
    let (kind, details) = publish(s.process_event(RawEvent::MouseMove { x: 30, y: 40 }, 25)).unwrap();
    assert_eq!(kind, "mouse_move");
    assert_eq!(details, "x: 30, y: 40");
    let p = s.get_mouse_position();
    assert_eq!((p.x, p.y), (30, 40));
}

#[test]
fn unknown_events_are_ignored() {
    let mut s = CaptureSession::new();
    assert!(s.start_tracking());
    s.set_mouse_logging(true);
    s.set_keyboard_logging(true);
    let out = s.process_event(RawEvent::Other, 0);
    assert!(matches!(out, CaptureOutput::Dropped));
}
