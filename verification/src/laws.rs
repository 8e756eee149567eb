//! The laws the capture core obeys, stated over the spec-level transition
//! functions and proved once for all inputs.

use vstd::prelude::*;
use crate::capture::CaptureModel;
use crate::capture::EMERGENCY_DEBOUNCE_MS;
use crate::capture::MOTION_THROTTLE_MS;
use crate::capture::OutputModel;
use crate::capture::debounce_allows;
use crate::capture::key_down;
use crate::capture::step;
use crate::capture::throttle_allows;
use crate::keys::Key;
use crate::keys::RawEvent;
use crate::keys::key_code;
use crate::keys::key_details;
use crate::mouse_control::MouseControlState;
use crate::mouse_control::after_emergency_stop;
use crate::mouse_control::after_toggle_suppression;
use crate::mouse_control::effectively_suppressing;

verus! {

/// One suppression-related command, as the command interface issues them.
pub enum SuppressionCmd {
    SetSuppression(bool),
    TriggerEmergencyStop,
}

/// The controller state after one command.
pub open spec fn suppression_step(s: MouseControlState, c: SuppressionCmd) -> MouseControlState {
    match c {
        SuppressionCmd::SetSuppression(enabled) => after_toggle_suppression(s, enabled),
        SuppressionCmd::TriggerEmergencyStop => after_emergency_stop(s),
    }
}

/// The controller state after a whole sequence of commands, first to last.
pub open spec fn suppression_run(s: MouseControlState, cs: Seq<SuppressionCmd>) -> MouseControlState
    decreases cs.len(),
{
    if cs.len() == 0 {
        s
    } else {
        suppression_run(suppression_step(s, cs[0]), cs.skip(1))
    }
}

/// The session state after a whole stream of raw events, each paired with its
/// arrival time.
pub open spec fn run_steps(m: CaptureModel, events: Seq<(RawEvent, u64)>) -> CaptureModel
    decreases events.len(),
{
    if events.len() == 0 {
        m
    } else {
        run_steps(step(m, events[0].0, events[0].1).0, events.skip(1))
    }
}

/// How many publishes (input events and emergency notices together) a stream
/// of raw events produces.
pub open spec fn publish_count(m: CaptureModel, events: Seq<(RawEvent, u64)>) -> nat
    decreases events.len(),
{
    if events.len() == 0 {
        0
    } else {
        (if step(m, events[0].0, events[0].1).1 is Dropped {
            0nat
        } else {
            1nat
        }) + publish_count(step(m, events[0].0, events[0].1).0, events.skip(1))
    }
}

/// Law: after any sequence of suppression commands, effective suppression
/// equals requested-and-not-emergency-stopped, at every observation point.
pub proof fn lemma_effective_suppression_invariant(s: MouseControlState, cs: Seq<SuppressionCmd>)
    ensures
        effectively_suppressing(suppression_run(s, cs)) == (suppression_run(s, cs).suppress_active
            && !suppression_run(s, cs).emergency_stop),
{
}

/// Once the emergency latch is set, no sequence of suppression commands
/// (toggles in either direction, repeated triggers) clears it.
pub proof fn lemma_emergency_latch_preserved(s: MouseControlState, cs: Seq<SuppressionCmd>)
    requires
        s.emergency_stop,
    ensures
        suppression_run(s, cs).emergency_stop,
    decreases cs.len(),
{
    if cs.len() > 0 {
        lemma_emergency_latch_preserved(suppression_step(s, cs[0]), cs.skip(1));
    }
}

/// Law: once an emergency stop succeeds, suppression is never effective again
/// under any later suppression commands — re-enabling suppression does not
/// clear the latch, and only an explicit reset would.
pub proof fn lemma_emergency_precedence(s: MouseControlState, cs: Seq<SuppressionCmd>)
    ensures
        suppression_run(after_emergency_stop(s), cs).emergency_stop,
        !effectively_suppressing(suppression_run(after_emergency_stop(s), cs)),
{
    lemma_emergency_latch_preserved(after_emergency_stop(s), cs);
}

/// Law: a trigger accepted at `t1` re-arms the debounce window there, so a
/// second trigger within the window is refused, and one at or past the window
/// is accepted.
pub proof fn lemma_debounce_idempotence(last: Option<u64>, t1: u64, t2: u64)
    requires
        debounce_allows(last, t1),
        t1 <= t2,
    ensures
        t2 - t1 < EMERGENCY_DEBOUNCE_MS ==> !debounce_allows(Some(t1), t2),
        t2 - t1 >= EMERGENCY_DEBOUNCE_MS ==> debounce_allows(Some(t1), t2),
{
}

/// Law: enabling suppression from the inactive state captures the anchor from
/// the current position at that very moment; enabling it again while already
/// active leaves the whole position state, the anchor included, unchanged.
pub proof fn lemma_anchor_capture(s: MouseControlState, enabled: bool)
    ensures
        (enabled && !s.suppress_active) ==> {
            &&& after_toggle_suppression(s, enabled).mouse_state.original_x
                == s.mouse_state.current_x
            &&& after_toggle_suppression(s, enabled).mouse_state.original_y
                == s.mouse_state.current_y
        },
        (enabled && s.suppress_active) ==> after_toggle_suppression(s, enabled).mouse_state
            == s.mouse_state,
{
}

/// Law: an accepted motion event re-arms the motion throttle, so a second
/// motion event within the throttle window is not published — but the current
/// position is still updated by it.
pub proof fn lemma_motion_throttle(
    m: CaptureModel,
    x1: i32,
    y1: i32,
    x2: i32,
    y2: i32,
    t1: u64,
    t2: u64,
)
    requires
        m.tracking_enabled,
        m.mouse_logging,
        throttle_allows(m.last_move_ms, t1, MOTION_THROTTLE_MS),
        t1 <= t2,
        t2 - t1 < MOTION_THROTTLE_MS,
    ensures
        ({
            let first = step(m, RawEvent::MouseMove { x: x1, y: y1 }, t1);
            let second = step(first.0, RawEvent::MouseMove { x: x2, y: y2 }, t2);
            &&& first.1 is Publish
            &&& second.1 is Dropped
            &&& second.0.control.mouse_state.current_x == x2
            &&& second.0.control.mouse_state.current_y == y2
        }),
{
}

/// Law: an emergency stop accepted from the emergency key at `t1` re-arms the
/// debounce window there, so a repeat of the key (or of the command-side
/// trigger, which shares the clock) within the window publishes nothing and
/// changes nothing, and one at or past the window fires again.
pub proof fn lemma_escape_debounce(m: CaptureModel, t1: u64, t2: u64)
    requires
        m.tracking_enabled,
        debounce_allows(m.last_emergency_ms, t1),
        t1 <= t2,
    ensures
        ({
            let first = step(m, RawEvent::KeyPress { key: Key::Escape }, t1);
            let second = step(first.0, RawEvent::KeyPress { key: Key::Escape }, t2);
            &&& first.1 is EmergencyNotice
            &&& first.0.control.emergency_stop
            &&& t2 - t1 < EMERGENCY_DEBOUNCE_MS ==> second == (first.0, OutputModel::Dropped)
            &&& t2 - t1 >= EMERGENCY_DEBOUNCE_MS ==> second.1 is EmergencyNotice
        }),
{
}

/// Law: a press of a key already recorded as held publishes nothing and
/// changes nothing, whatever the flags and clocks say.
pub proof fn lemma_key_press_dedup(m: CaptureModel, key: Key, now_ms: u64)
    requires
        key != Key::Escape,
        key_down(m.keys_down, key_code(key)),
    ensures
        step(m, RawEvent::KeyPress { key }, now_ms) == (m, OutputModel::Dropped),
{
}

/// Law: an accepted key press publishes exactly one press payload and records
/// the key as held, so every further press of it (see
/// [`lemma_key_press_dedup`]) is dropped until a release intervenes.
pub proof fn lemma_key_press_recorded(m: CaptureModel, key: Key, now_ms: u64)
    requires
        key != Key::Escape,
        m.tracking_enabled,
        m.keyboard_logging,
        !key_down(m.keys_down, key_code(key)),
    ensures
        step(m, RawEvent::KeyPress { key }, now_ms).1 == (OutputModel::Publish {
            event_type: "keyboard_press"@,
            details: key_details(key),
        }),
        key_down(step(m, RawEvent::KeyPress { key }, now_ms).0.keys_down, key_code(key)),
{
}

/// While a key is recorded as held, a whole stream of repeated presses of it
/// publishes nothing and changes nothing.
pub proof fn lemma_key_press_stream_silent(m: CaptureModel, key: Key, events: Seq<(RawEvent, u64)>)
    requires
        key != Key::Escape,
        key_down(m.keys_down, key_code(key)),
        forall|i: int| 0 <= i < events.len() ==> events[i].0 == (RawEvent::KeyPress { key }),
    ensures
        run_steps(m, events) == m,
        publish_count(m, events) == 0,
    decreases events.len(),
{
    if events.len() > 0 {
        lemma_key_press_dedup(m, key, events[0].1);
        lemma_key_press_stream_silent(m, key, events.skip(1));
    }
}

/// Law: a stream of repeated presses of one key (not the emergency key) with
/// no intervening release publishes exactly one press payload — the first one.
pub proof fn lemma_key_dedup_stream(m: CaptureModel, key: Key, t0: u64, rest: Seq<(RawEvent, u64)>)
    requires
        key != Key::Escape,
        m.tracking_enabled,
        m.keyboard_logging,
        !key_down(m.keys_down, key_code(key)),
        forall|i: int| 0 <= i < rest.len() ==> rest[i].0 == (RawEvent::KeyPress { key }),
    ensures
        publish_count(m, seq![(RawEvent::KeyPress { key }, t0)].add(rest)) == 1,
{
    let all = seq![(RawEvent::KeyPress { key }, t0)].add(rest);
    assert(all.skip(1) =~= rest);
    lemma_key_press_recorded(m, key, t0);
    let m1 = step(m, RawEvent::KeyPress { key }, t0).0;
    lemma_key_press_stream_silent(m1, key, rest);
}

/// Law: a release of a key not recorded as held publishes nothing and changes
/// nothing.
pub proof fn lemma_key_release_dedup(m: CaptureModel, key: Key, now_ms: u64)
    requires
        !key_down(m.keys_down, key_code(key)),
    ensures
        step(m, RawEvent::KeyRelease { key }, now_ms) == (m, OutputModel::Dropped),
{
}

/// Law: releasing a held key publishes exactly one release payload and records
/// the key as up again.
pub proof fn lemma_key_release_recorded(m: CaptureModel, key: Key, now_ms: u64)
    requires
        m.tracking_enabled,
        m.keyboard_logging,
        key_down(m.keys_down, key_code(key)),
    ensures
        step(m, RawEvent::KeyRelease { key }, now_ms).1 == (OutputModel::Publish {
            event_type: "keyboard_release"@,
            details: key_details(key),
        }),
        !key_down(step(m, RawEvent::KeyRelease { key }, now_ms).0.keys_down, key_code(key)),
{
}

/// Law: with tracking disabled, a whole stream of raw events — of any types,
/// at any times — publishes nothing and leaves every part of the session
/// state unchanged.
pub proof fn lemma_tracking_gate(m: CaptureModel, events: Seq<(RawEvent, u64)>)
    requires
        !m.tracking_enabled,
    ensures
        run_steps(m, events) == m,
        publish_count(m, events) == 0,
    decreases events.len(),
{
    if events.len() > 0 {
        lemma_tracking_gate(m, events.skip(1));
    }
}

} // verus!
