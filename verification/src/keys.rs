//! Raw input events and the closed vocabulary of keys and buttons.
//!
//! The OS hook's own key and button types stay outside this crate; the loop
//! that receives them converts each into these plain enumerations before the
//! core ever looks at it. Recognized keys carry a stable textual identifier;
//! anything unmapped falls back to a generic `unknown(code)` rendering, so the
//! wire format never depends on an internal representation's debug form.

use vstd::prelude::*;
use crate::decimal::dec_int;
use crate::decimal::dec_nat;
use crate::decimal::format_i32;
use crate::decimal::format_u64;

verus! {

/// A keyboard key, as the capture core sees it.
#[derive(Clone, Copy, Debug, PartialEq, Eq, Structural)]
pub enum Key {
    Alt,
    Shift,
    Control,
    Meta,
    Return,
    Tab,
    Space,
    Backspace,
    Escape,
    CapsLock,
    /// Any other key, identified by the code the OS hook reported for it.
    Other(u32),
}

/// A mouse button.
#[derive(Clone, Copy, Debug, PartialEq, Eq, Structural)]
pub enum Button {
    Left,
    Right,
    Middle,
    /// Any other button, identified by the code the OS hook reported for it.
    Other(u8),
}

/// A raw OS input event, already reduced to plain values.
#[derive(Clone, Copy, Debug, PartialEq, Eq, Structural)]
pub enum RawEvent {
    MouseMove { x: i32, y: i32 },
    ButtonPress { button: Button },
    ButtonRelease { button: Button },
    KeyPress { key: Key },
    KeyRelease { key: Key },
    /// Any event category the core does not handle; always ignored.
    Other,
}

/// A filtered event as handed to the presentation layer.
#[derive(Clone, Debug)]
pub struct InputEvent {
    pub event_type: String,
    pub details: String,
}

/// A distinct code for every key, used to index the pressed/released table.
pub open spec fn key_code(k: Key) -> u64 {
    match k {
        Key::Alt => 0,
        Key::Shift => 1,
        Key::Control => 2,
        Key::Meta => 3,
        Key::Return => 4,
        Key::Tab => 5,
        Key::Space => 6,
        Key::Backspace => 7,
        Key::Escape => 8,
        Key::CapsLock => 9,
        Key::Other(c) => (10 + c) as u64,
    }
}

/// The stable textual identifier of a key.
pub open spec fn key_name(k: Key) -> Seq<char> {
    match k {
        Key::Alt => "Alt"@,
        Key::Shift => "Shift"@,
        Key::Control => "Control"@,
        Key::Meta => "Meta"@,
        Key::Return => "Return"@,
        Key::Tab => "Tab"@,
        Key::Space => "Space"@,
        Key::Backspace => "Backspace"@,
        Key::Escape => "Escape"@,
        Key::CapsLock => "CapsLock"@,
        Key::Other(c) => "unknown("@ + dec_nat(c as nat) + ")"@,
    }
}

/// The stable textual identifier of a button.
pub open spec fn button_name(b: Button) -> Seq<char> {
    match b {
        Button::Left => "Left"@,
        Button::Right => "Right"@,
        Button::Middle => "Middle"@,
        Button::Other(c) => "unknown("@ + dec_nat(c as nat) + ")"@,
    }
}

impl Key {
    /// The table index of this key; distinct keys have distinct codes.
    pub fn code(&self) -> (c: u64)
        ensures
            c == key_code(*self),
    {
        match *self {
            Key::Alt => 0,
            Key::Shift => 1,
            Key::Control => 2,
            Key::Meta => 3,
            Key::Return => 4,
            Key::Tab => 5,
            Key::Space => 6,
            Key::Backspace => 7,
            Key::Escape => 8,
            Key::CapsLock => 9,
            Key::Other(c) => 10 + c as u64,
        }
    }
}

/// Renders a key's stable identifier.
pub fn format_key(key: Key) -> (s: String)
    ensures
        s@ == key_name(key),
{
    match key {
        Key::Alt => String::from_str("Alt"),
        Key::Shift => String::from_str("Shift"),
        Key::Control => String::from_str("Control"),
        Key::Meta => String::from_str("Meta"),
        Key::Return => String::from_str("Return"),
        Key::Tab => String::from_str("Tab"),
        Key::Space => String::from_str("Space"),
        Key::Backspace => String::from_str("Backspace"),
        Key::Escape => String::from_str("Escape"),
        Key::CapsLock => String::from_str("CapsLock"),
        Key::Other(c) => {
            let mut s = String::from_str("unknown(");
            s.append(format_u64(c as u64).as_str());
            s.append(")");
            s
        },
    }
}

/// The detail string published with a motion event.
pub open spec fn motion_details(x: i32, y: i32) -> Seq<char> {
    "x: "@ + dec_int(x as int) + ", y: "@ + dec_int(y as int)
}

/// The detail string published with a button event.
pub open spec fn button_details(b: Button) -> Seq<char> {
    "button: "@ + button_name(b)
}

/// The detail string published with a key event.
pub open spec fn key_details(k: Key) -> Seq<char> {
    "key: "@ + key_name(k)
}

/// Renders the detail string of a motion event.
pub fn format_motion_details(x: i32, y: i32) -> (s: String)
    ensures
        s@ == motion_details(x, y),
{
    let mut s = String::from_str("x: ");
    s.append(format_i32(x).as_str());
    s.append(", y: ");
    s.append(format_i32(y).as_str());
    proof {
        assert(s@ =~= motion_details(x, y));
    }
    s
}

/// Renders the detail string of a button event.
pub fn format_button_details(button: Button) -> (s: String)
    ensures
        s@ == button_details(button),
{
    let mut s = String::from_str("button: ");
    s.append(format_button(button).as_str());
    proof {
        assert(s@ =~= button_details(button));
    }
    s
}

/// Renders the detail string of a key event.
pub fn format_key_details(key: Key) -> (s: String)
    ensures
        s@ == key_details(key),
{
    let mut s = String::from_str("key: ");
    s.append(format_key(key).as_str());
    proof {
        assert(s@ =~= key_details(key));
    }
    s
}

/// Renders a button's stable identifier.
pub fn format_button(button: Button) -> (s: String)
    ensures
        s@ == button_name(button),
{
    match button {
        Button::Left => String::from_str("Left"),
        Button::Right => String::from_str("Right"),
        Button::Middle => String::from_str("Middle"),
        Button::Other(c) => {
            let mut s = String::from_str("unknown(");
            s.append(format_u64(c as u64).as_str());
            s.append(")");
            s
        },
    }
}

} // verus!
