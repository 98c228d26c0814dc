//! Input events and transient input state.
//!
//! These are plain values handed in by the platform boundary: cursor and
//! keyboard events with positions in surface coordinates, plus the ambient
//! cursor/button/modifier state.  Widgets read them and never mutate them.

use vstd::prelude::*;
use crate::geom::Point;

verus! {

/// A mouse button, as the engine distinguishes them.
#[derive(Clone, Copy, Debug, PartialEq, Eq, Structural)]
pub enum MouseButton {
    Primary,
    Secondary,
    Middle,
    X1,
    X2,
}

/// Which mouse buttons are currently held.
#[derive(Clone, Copy, Debug, PartialEq, Eq, Structural)]
pub struct MouseButtons {
    pub primary: bool,
    pub secondary: bool,
    pub middle: bool,
    pub x1: bool,
    pub x2: bool,
}

/// Modifier keys held during an event.
#[derive(Clone, Copy, Debug, PartialEq, Eq, Structural)]
pub struct Modifiers {
    pub shift: bool,
    pub ctrl: bool,
    pub alt: bool,
    pub meta: bool,
}

impl Modifiers {
    pub open spec fn none_spec() -> Modifiers {
        Modifiers { shift: false, ctrl: false, alt: false, meta: false }
    }

    pub fn none() -> (r: Modifiers)
        ensures
            r == Modifiers::none_spec(),
    {
        Modifiers { shift: false, ctrl: false, alt: false, meta: false }
    }
}

/// A cursor event: a press, a release, or a move.
#[derive(Clone, Copy, Debug, PartialEq, Eq, Structural)]
pub enum CursorInput {
    Down(MouseButton),
    Up(MouseButton),
    Move,
}

/// A key press, translated by the platform boundary to a plain code point
/// or key code plus modifiers.
#[derive(Clone, Copy, Debug, PartialEq, Eq, Structural)]
pub struct KeyEvent {
    pub key: u32,
    pub mods: Modifiers,
}

/// A keyboard event.
#[derive(Clone, Copy, Debug, PartialEq, Eq, Structural)]
pub enum KeyboardInput {
    KeyDown(KeyEvent),
}

/// Transient per-frame input state: where the cursor is (if over the
/// window at all), whether a button is down, and the held modifiers.
#[derive(Clone, Copy, Debug, PartialEq, Eq, Structural)]
pub struct InputState {
    pub cursor_pos: Option<Point>,
    pub mouse_down: bool,
    pub mods: Modifiers,
}

impl InputState {
    /// The state handed to widgets on layers covered by an overlay: no
    /// cursor, no buttons.
    pub open spec fn empty_spec() -> InputState {
        InputState { cursor_pos: None, mouse_down: false, mods: Modifiers::none_spec() }
    }

    pub fn empty() -> (r: InputState)
        ensures
            r == InputState::empty_spec(),
    {
        InputState { cursor_pos: None, mouse_down: false, mods: Modifiers::none() }
    }
}

impl Default for InputState {
    fn default() -> (r: Self)
        ensures
            r == InputState::empty_spec(),
    {
        InputState::empty()
    }
}

/// What a widget reports back from cursor-input handling.
#[derive(Clone, Copy, Debug, PartialEq, Eq, Structural)]
pub struct InputReturn {
    pub demand_focus: bool,
}

impl InputReturn {
    pub open spec fn none_spec() -> InputReturn {
        InputReturn { demand_focus: false }
    }

    pub fn none() -> (r: InputReturn)
        ensures
            r == InputReturn::none_spec(),
    {
        InputReturn { demand_focus: false }
    }
}

impl Default for InputReturn {
    fn default() -> (r: Self)
        ensures
            r == InputReturn::none_spec(),
    {
        InputReturn::none()
    }
}

} // verus!
