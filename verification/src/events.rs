//! Plain-value model of the terminal input events the control core consumes.
//!
//! The terminal subsystem delivers key presses (a key code plus a modifier
//! set) and passes other events through; only key events are interpreted by
//! the state machine, so everything else collapses to [`TermEvent::Other`].

use vstd::prelude::*;

verus! {

/// The key codes the state machine distinguishes.  Every other key arrives
/// as [`KeyCode::Other`] and is reported as ignored.
#[derive(Clone, Copy, Debug, PartialEq, Eq, Structural)]
pub enum KeyCode {
    Char(char),
    Enter,
    Esc,
    Backspace,
    Up,
    Down,
    Other,
}

/// One key press: the code and whether the Control modifier was held.
#[derive(Clone, Copy, Debug, PartialEq, Eq, Structural)]
pub struct KeyInput {
    pub code: KeyCode,
    pub ctrl: bool,
}

/// A terminal event.  Resize and the remaining terminal events carry no
/// information the core reads, so they are all [`TermEvent::Other`].
#[derive(Clone, Copy, Debug, PartialEq, Eq, Structural)]
pub enum TermEvent {
    Key(KeyInput),
    Other,
}

impl KeyInput {
    /// A key press without modifiers.
    pub fn plain(code: KeyCode) -> (r: KeyInput)
        ensures
            r == (KeyInput { code, ctrl: false }),
    {
        KeyInput { code, ctrl: false }
    }
}

/// A plain key-press event, the common case in tests and callers.
pub fn key_event(code: KeyCode) -> (r: TermEvent)
    ensures
        r == TermEvent::Key(KeyInput { code, ctrl: false }),
{
    TermEvent::Key(KeyInput { code, ctrl: false })
}

} // verus!
