//! Pointer position bookkeeping and the suppression / emergency-stop flags.

use vstd::prelude::*;

verus! {

/// Current and anchor (pre-suppression) pointer coordinates.
///
/// `current` is overwritten on every raw motion event; `original` holds the
/// coordinates captured at the instant suppression was last enabled.
#[derive(Clone, Copy, Debug, PartialEq, Eq, Structural)]
pub struct MouseState {
    pub current_x: i32,
    pub current_y: i32,
    pub original_x: i32,
    pub original_y: i32,
}

impl MouseState {
    pub fn new() -> (s: Self)
        ensures
            s == (MouseState { current_x: 0, current_y: 0, original_x: 0, original_y: 0 }),
    {
        Self { current_x: 0, current_y: 0, original_x: 0, original_y: 0 }
    }

    /// Unconditional overwrite of the current position; the anchor is untouched.
    pub fn update_current_pos(&mut self, x: i32, y: i32)
        ensures
            *final(self) == (MouseState {
                current_x: x,
                current_y: y,
                ..*old(self)
            }),
    {
        self.current_x = x;
        self.current_y = y;
    }

    /// Copies the current position into the anchor; used at the moment
    /// suppression transitions from off to on.
    pub fn store_original_pos(&mut self)
        ensures
            *final(self) == (MouseState {
                original_x: old(self).current_x,
                original_y: old(self).current_y,
                ..*old(self)
            }),
    {
        self.original_x = self.current_x;
        self.original_y = self.current_y;
    }

    pub fn get_current_pos(&self) -> (p: (i32, i32))
        ensures
            p.0 == self.current_x,
            p.1 == self.current_y,
    {
        (self.current_x, self.current_y)
    }

    pub fn get_original_pos(&self) -> (p: (i32, i32))
        ensures
            p.0 == self.original_x,
            p.1 == self.original_y,
    {
        (self.original_x, self.original_y)
    }
}

/// A pointer position as handed to the presentation layer.
#[derive(Clone, Copy, Debug, PartialEq, Eq, Structural)]
pub struct MousePos {
    pub x: i32,
    pub y: i32,
}

/// Suppression state: the command-requested `suppress_active` flag and the
/// latched `emergency_stop` override, together with the tracked position.
#[derive(Clone, Copy, Debug, PartialEq, Eq, Structural)]
pub struct MouseControlState {
    pub mouse_state: MouseState,
    pub suppress_active: bool,
    pub emergency_stop: bool,
}

/// Suppression is effective only while it is requested and no emergency stop
/// is latched: the emergency stop always wins.
pub open spec fn effectively_suppressing(s: MouseControlState) -> bool {
    s.suppress_active && !s.emergency_stop
}

/// The state after `toggle_suppression(enabled)`: on an off-to-on transition
/// the anchor is captured first; re-enabling while already active changes
/// nothing; disabling clears `suppress_active` unconditionally. The emergency
/// latch is never touched.
pub open spec fn after_toggle_suppression(s: MouseControlState, enabled: bool) -> MouseControlState {
    if enabled && !s.suppress_active {
        MouseControlState {
            mouse_state: MouseState {
                original_x: s.mouse_state.current_x,
                original_y: s.mouse_state.current_y,
                ..s.mouse_state
            },
            suppress_active: true,
            ..s
        }
    } else {
        MouseControlState { suppress_active: enabled, ..s }
    }
}

/// The state after `trigger_emergency_stop`: the latch is set and requested
/// suppression is forced off, whatever held before.
pub open spec fn after_emergency_stop(s: MouseControlState) -> MouseControlState {
    MouseControlState { suppress_active: false, emergency_stop: true, ..s }
}

impl MouseControlState {
    pub fn new() -> (s: Self)
        ensures
            s == (MouseControlState {
                mouse_state: MouseState { current_x: 0, current_y: 0, original_x: 0, original_y: 0 },
                suppress_active: false,
                emergency_stop: false,
            }),
    {
        Self { mouse_state: MouseState::new(), suppress_active: false, emergency_stop: false }
    }

    /// Requests or releases suppression. On the off-to-on transition the
    /// current position is captured as the anchor, exactly once; the
    /// emergency latch is left as it was.
    pub fn toggle_suppression(&mut self, enabled: bool)
        ensures
            *final(self) == after_toggle_suppression(*old(self), enabled),
    {
        if enabled && !self.suppress_active {
            self.mouse_state.store_original_pos();
        }
        self.suppress_active = enabled;
    }

    /// Latches the emergency stop and forces requested suppression off.
    /// Idempotent: a repeated call re-asserts the same state.
    pub fn trigger_emergency_stop(&mut self)
        ensures
            *final(self) == after_emergency_stop(*old(self)),
            !effectively_suppressing(*final(self)),
    {
        self.emergency_stop = true;
        self.suppress_active = false;
    }

    /// Clears the emergency latch; nothing else changes.
    pub fn clear_emergency(&mut self)
        ensures
            *final(self) == (MouseControlState { emergency_stop: false, ..*old(self) }),
    {
        self.emergency_stop = false;
    }

    /// Whether suppression is effective right now: requested and not
    /// overridden by the emergency latch.
    pub fn is_suppressing(&self) -> (r: bool)
        ensures
            r == effectively_suppressing(*self),
    {
        self.suppress_active && !self.emergency_stop
    }
}

} // verus!
