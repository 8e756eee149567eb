//! The capture session: shared flags, throttle and debounce clocks, the key
//! de-duplication table, and the per-event decision taken by the capture
//! worker on every raw OS event.
//!
//! The session is an owned context object: the command layer and the capture
//! worker both act on the one instance. Wall-clock time never enters the core;
//! callers read the clock at the edge and hand in a millisecond timestamp.

use vstd::prelude::*;
use std::collections::HashMap;
use crate::keys::InputEvent;
use crate::keys::Key;
use crate::keys::RawEvent;
use crate::keys::button_details;
use crate::keys::format_button_details;
use crate::keys::format_key_details;
use crate::keys::format_motion_details;
use crate::keys::key_code;
use crate::keys::key_details;
use crate::keys::motion_details;
use crate::mouse_control::MouseControlState;
use crate::mouse_control::MouseState;
use crate::mouse_control::after_emergency_stop;
use crate::mouse_control::after_toggle_suppression;
use crate::mouse_control::MousePos;

verus! {

/// Minimum spacing between two published motion events (about one frame).
pub const MOTION_THROTTLE_MS: u64 = 16;

/// Minimum spacing between two published button events.
pub const BUTTON_THROTTLE_MS: u64 = 50;

/// Minimum spacing between two accepted emergency-stop triggers.
pub const EMERGENCY_DEBOUNCE_MS: u64 = 500;

/// Milliseconds elapsed from `earlier` to `now`, zero if the clock appears to
/// have gone backwards.
pub open spec fn elapsed_ms(earlier: u64, now: u64) -> u64 {
    if now >= earlier {
        (now - earlier) as u64
    } else {
        0
    }
}

/// Whether a rate-limited action is allowed at `now`: always on the first
/// occasion, afterwards only once `window` milliseconds have elapsed since the
/// last accepted occasion.
pub open spec fn throttle_allows(last: Option<u64>, now: u64, window: u64) -> bool {
    match last {
        None => true,
        Some(t) => elapsed_ms(t, now) >= window,
    }
}

/// Whether an emergency-stop trigger at `now` passes the debounce window.
pub open spec fn debounce_allows(last: Option<u64>, now: u64) -> bool {
    throttle_allows(last, now, EMERGENCY_DEBOUNCE_MS)
}

/// Whether the de-duplication table records `code` as currently pressed.
pub open spec fn key_down(table: Map<u64, bool>, code: u64) -> bool {
    table.contains_key(code) && table[code]
}

/// The mathematical value of a capture session.
#[verifier::ext_equal]
pub struct CaptureModel {
    pub tracking_enabled: bool,
    pub mouse_logging: bool,
    pub keyboard_logging: bool,
    pub control: MouseControlState,
    pub last_emergency_ms: Option<u64>,
    pub last_move_ms: Option<u64>,
    pub last_button_ms: Option<u64>,
    pub keys_down: Map<u64, bool>,
}

/// What one raw event obliges the caller to publish: nothing, one payload on
/// the input-event channel, or one notice on the emergency-stop channel.
#[verifier::ext_equal]
pub enum OutputModel {
    Dropped,
    Publish { event_type: Seq<char>, details: Seq<char> },
    EmergencyNotice,
}

/// The session state at startup: nothing tracked or logged, no suppression,
/// all clocks unset, no key pressed.
pub open spec fn initial_model() -> CaptureModel {
    CaptureModel {
        tracking_enabled: false,
        mouse_logging: false,
        keyboard_logging: false,
        control: MouseControlState {
            mouse_state: MouseState { current_x: 0, current_y: 0, original_x: 0, original_y: 0 },
            suppress_active: false,
            emergency_stop: false,
        },
        last_emergency_ms: None,
        last_move_ms: None,
        last_button_ms: None,
        keys_down: Map::empty(),
    }
}

/// The per-event decision table. Given the session state, one raw event and
/// the time it arrived, yields the state afterwards and what must be
/// published. With tracking disabled every event is a complete no-op. The
/// current position is updated on every motion event regardless of logging
/// and throttling; the emergency key bypasses keyboard logging and
/// de-duplication but honours the debounce window.
pub open spec fn step(m: CaptureModel, event: RawEvent, now_ms: u64) -> (CaptureModel, OutputModel) {
    if !m.tracking_enabled {
        (m, OutputModel::Dropped)
    } else {
        match event {
            RawEvent::MouseMove { x, y } => {
                let moved = CaptureModel {
                    control: MouseControlState {
                        mouse_state: MouseState {
                            current_x: x,
                            current_y: y,
                            ..m.control.mouse_state
                        },
                        ..m.control
                    },
                    ..m
                };
                if m.mouse_logging && throttle_allows(m.last_move_ms, now_ms, MOTION_THROTTLE_MS) {
                    (
                        CaptureModel { last_move_ms: Some(now_ms), ..moved },
                        OutputModel::Publish {
                            event_type: "mouse_move"@,
                            details: motion_details(x, y),
                        },
                    )
                } else {
                    (moved, OutputModel::Dropped)
                }
            },
            RawEvent::ButtonPress { button } => {
                if m.mouse_logging && throttle_allows(m.last_button_ms, now_ms, BUTTON_THROTTLE_MS) {
                    (
                        CaptureModel { last_button_ms: Some(now_ms), ..m },
                        OutputModel::Publish {
                            event_type: "mouse_press"@,
                            details: button_details(button),
                        },
                    )
                } else {
                    (m, OutputModel::Dropped)
                }
            },
            RawEvent::ButtonRelease { button } => {
                if m.mouse_logging && throttle_allows(m.last_button_ms, now_ms, BUTTON_THROTTLE_MS) {
                    (
                        CaptureModel { last_button_ms: Some(now_ms), ..m },
                        OutputModel::Publish {
                            event_type: "mouse_release"@,
                            details: button_details(button),
                        },
                    )
                } else {
                    (m, OutputModel::Dropped)
                }
            },
            RawEvent::KeyPress { key } => {
                if key == Key::Escape {
                    if debounce_allows(m.last_emergency_ms, now_ms) {
                        (
                            CaptureModel {
                                control: after_emergency_stop(m.control),
                                last_emergency_ms: Some(now_ms),
                                ..m
                            },
                            OutputModel::EmergencyNotice,
                        )
                    } else {
                        (m, OutputModel::Dropped)
                    }
                } else if m.keyboard_logging && !key_down(m.keys_down, key_code(key)) {
                    (
                        CaptureModel { keys_down: m.keys_down.insert(key_code(key), true), ..m },
                        OutputModel::Publish {
                            event_type: "keyboard_press"@,
                            details: key_details(key),
                        },
                    )
                } else {
                    (m, OutputModel::Dropped)
                }
            },
            RawEvent::KeyRelease { key } => {
                if m.keyboard_logging && key_down(m.keys_down, key_code(key)) {
                    (
                        CaptureModel { keys_down: m.keys_down.insert(key_code(key), false), ..m },
                        OutputModel::Publish {
                            event_type: "keyboard_release"@,
                            details: key_details(key),
                        },
                    )
                } else {
                    (m, OutputModel::Dropped)
                }
            },
            RawEvent::Other => (m, OutputModel::Dropped),
        }
    }
}

/// What `process_event` tells its caller to do.
#[derive(Debug)]
pub enum CaptureOutput {
    /// The event was dropped; nothing is published.
    Dropped,
    /// Publish this payload once on the input-event channel.
    Publish(InputEvent),
    /// Publish one notice on the emergency-stop channel.
    EmergencyNotice,
}

impl View for CaptureOutput {
    type V = OutputModel;

    open spec fn view(&self) -> OutputModel {
        match self {
            CaptureOutput::Dropped => OutputModel::Dropped,
            CaptureOutput::Publish(e) => OutputModel::Publish {
                event_type: e.event_type@,
                details: e.details@,
            },
            CaptureOutput::EmergencyNotice => OutputModel::EmergencyNotice,
        }
    }
}

/// The shared state of one capture session: the flags the command layer
/// writes and the capture worker reads, the suppression controller, and the
/// clocks and key table owned by the event filter.
pub struct CaptureSession {
    pub tracking_enabled: bool,
    pub mouse_logging: bool,
    pub keyboard_logging: bool,
    pub control: MouseControlState,
    pub last_emergency_ms: Option<u64>,
    pub last_move_ms: Option<u64>,
    pub last_button_ms: Option<u64>,
    pub key_states: HashMap<u64, bool>,
}

impl View for CaptureSession {
    type V = CaptureModel;

    open spec fn view(&self) -> CaptureModel {
        CaptureModel {
            tracking_enabled: self.tracking_enabled,
            mouse_logging: self.mouse_logging,
            keyboard_logging: self.keyboard_logging,
            control: self.control,
            last_emergency_ms: self.last_emergency_ms,
            last_move_ms: self.last_move_ms,
            last_button_ms: self.last_button_ms,
            keys_down: self.key_states@,
        }
    }
}

/// Whether the debounce window lets an emergency-stop trigger through at
/// `now_ms`; on success the window is re-armed at `now_ms`, otherwise the
/// clock is untouched.
pub fn should_handle_emergency_stop(last_stop_ms: &mut Option<u64>, now_ms: u64) -> (fire: bool)
    ensures
        fire == debounce_allows(*old(last_stop_ms), now_ms),
        fire ==> *final(last_stop_ms) == Some(now_ms),
        !fire ==> *final(last_stop_ms) == *old(last_stop_ms),
{
    let fire: bool = match *last_stop_ms {
        None => true,
        Some(t) => {
            let e: u64 = if now_ms >= t {
                now_ms - t
            } else {
                0
            };
            e >= EMERGENCY_DEBOUNCE_MS
        },
    };
    if fire {
        *last_stop_ms = Some(now_ms);
    }
    fire
}

fn throttle_passes(last: Option<u64>, now_ms: u64, window: u64) -> (r: bool)
    ensures
        r == throttle_allows(last, now_ms, window),
{
    match last {
        None => true,
        Some(t) => {
            let e: u64 = if now_ms >= t {
                now_ms - t
            } else {
                0
            };
            e >= window
        },
    }
}

fn key_down_now(table: &HashMap<u64, bool>, code: u64) -> (r: bool)
    ensures
        r == key_down(table@, code),
{
    match table.get(&code) {
        Some(b) => *b,
        None => false,
    }
}

impl CaptureSession {
    /// A fresh session with every flag off and nothing recorded.
    pub fn new() -> (s: Self)
        ensures
            s@ == initial_model(),
    {
        let s = Self {
            tracking_enabled: false,
            mouse_logging: false,
            keyboard_logging: false,
            control: MouseControlState::new(),
            last_emergency_ms: None,
            last_move_ms: None,
            last_button_ms: None,
            key_states: HashMap::new(),
        };
        proof {
            assert(s@ =~= initial_model());
        }
        s
    }

    /// Starts tracking. Returns whether this call made the off-to-on
    /// transition: only then must the caller spawn the capture worker, so a
    /// second start while already running stays a no-op.
    pub fn start_tracking(&mut self) -> (started: bool)
        ensures
            started == !old(self)@.tracking_enabled,
            final(self)@ == (CaptureModel { tracking_enabled: true, ..old(self)@ }),
    {
        let started = !self.tracking_enabled;
        self.tracking_enabled = true;
        started
    }

    /// Stops tracking: every later raw event is a no-op until the next start.
    pub fn stop_tracking(&mut self)
        ensures
            final(self)@ == (CaptureModel { tracking_enabled: false, ..old(self)@ }),
    {
        self.tracking_enabled = false;
    }

    /// Turns publishing of mouse events on or off; effective on the next event.
    pub fn set_mouse_logging(&mut self, enabled: bool)
        ensures
            final(self)@ == (CaptureModel { mouse_logging: enabled, ..old(self)@ }),
    {
        self.mouse_logging = enabled;
    }

    /// Turns publishing of keyboard events on or off; effective on the next event.
    pub fn set_keyboard_logging(&mut self, enabled: bool)
        ensures
            final(self)@ == (CaptureModel { keyboard_logging: enabled, ..old(self)@ }),
    {
        self.keyboard_logging = enabled;
    }

    /// Requests or releases suppression; see
    /// [`MouseControlState::toggle_suppression`].
    pub fn toggle_suppression(&mut self, enabled: bool)
        ensures
            final(self)@ == (CaptureModel {
                control: after_toggle_suppression(old(self)@.control, enabled),
                ..old(self)@
            }),
    {
        self.control.toggle_suppression(enabled);
    }

    /// The debounced emergency-stop entry point. Returns whether the trigger
    /// was accepted: exactly then the suppression controller latched the stop
    /// and the caller owes one notice on the emergency-stop channel; a call
    /// inside the debounce window changes nothing.
    pub fn handle_emergency_stop(&mut self, now_ms: u64) -> (fired: bool)
        ensures
            fired == debounce_allows(old(self)@.last_emergency_ms, now_ms),
            fired ==> final(self)@ == (CaptureModel {
                control: after_emergency_stop(old(self)@.control),
                last_emergency_ms: Some(now_ms),
                ..old(self)@
            }),
            !fired ==> final(self)@ == old(self)@,
    {
        if should_handle_emergency_stop(&mut self.last_emergency_ms, now_ms) {
            self.control.trigger_emergency_stop();
            true
        } else {
            false
        }
    }

    /// Snapshot of the current pointer position.
    pub fn get_mouse_position(&self) -> (p: MousePos)
        ensures
            p.x == self@.control.mouse_state.current_x,
            p.y == self@.control.mouse_state.current_y,
    {
        let (x, y) = self.control.mouse_state.get_current_pos();
        MousePos { x, y }
    }

    /// Runs one raw event through the decision table: updates the session
    /// exactly as [`step`] says and returns what the caller must publish.
    pub fn process_event(&mut self, event: RawEvent, now_ms: u64) -> (out: CaptureOutput)
        ensures
            final(self)@ == step(old(self)@, event, now_ms).0,
            out@ == step(old(self)@, event, now_ms).1,
    {
        if !self.tracking_enabled {
            return CaptureOutput::Dropped;
        }
        match event {
            RawEvent::MouseMove { x, y } => {
                self.control.mouse_state.update_current_pos(x, y);
                if self.mouse_logging && throttle_passes(self.last_move_ms, now_ms, MOTION_THROTTLE_MS) {
                    self.last_move_ms = Some(now_ms);
                    CaptureOutput::Publish(InputEvent {
                        event_type: String::from_str("mouse_move"),
                        details: format_motion_details(x, y),
                    })
                } else {
                    CaptureOutput::Dropped
                }
            },
            RawEvent::ButtonPress { button } => {
                if self.mouse_logging && throttle_passes(self.last_button_ms, now_ms, BUTTON_THROTTLE_MS) {
                    self.last_button_ms = Some(now_ms);
                    CaptureOutput::Publish(InputEvent {
                        event_type: String::from_str("mouse_press"),
                        details: format_button_details(button),
                    })
                } else {
                    CaptureOutput::Dropped
                }
            },
            RawEvent::ButtonRelease { button } => {
                if self.mouse_logging && throttle_passes(self.last_button_ms, now_ms, BUTTON_THROTTLE_MS) {
                    self.last_button_ms = Some(now_ms);
                    CaptureOutput::Publish(InputEvent {
                        event_type: String::from_str("mouse_release"),
                        details: format_button_details(button),
                    })
                } else {
                    CaptureOutput::Dropped
                }
            },
            RawEvent::KeyPress { key } => {
                if key == Key::Escape {
                    if should_handle_emergency_stop(&mut self.last_emergency_ms, now_ms) {
                        self.control.trigger_emergency_stop();
                        CaptureOutput::EmergencyNotice
                    } else {
                        CaptureOutput::Dropped
                    }
                } else if self.keyboard_logging {
                    let code: u64 = key.code();
                    if !key_down_now(&self.key_states, code) {
                        self.key_states.insert(code, true);
                        CaptureOutput::Publish(InputEvent {
                            event_type: String::from_str("keyboard_press"),
                            details: format_key_details(key),
                        })
                    } else {
                        CaptureOutput::Dropped
                    }
                } else {
                    CaptureOutput::Dropped
                }
            },
            RawEvent::KeyRelease { key } => {
                if self.keyboard_logging {
                    let code: u64 = key.code();
                    if key_down_now(&self.key_states, code) {
                        self.key_states.insert(code, false);
                        CaptureOutput::Publish(InputEvent {
                            event_type: String::from_str("keyboard_release"),
                            details: format_key_details(key),
                        })
                    } else {
                        CaptureOutput::Dropped
                    }
                } else {
                    CaptureOutput::Dropped
                }
            },
            RawEvent::Other => CaptureOutput::Dropped,
        }
    }
}

} // verus!
