//! The input events the turn driver reacts to, as plain values, and the
//! quit decision taken when one arrives.

use vstd::prelude::*;

verus! {

/// A key, reduced to what the game reads: a printable character, Escape,
/// or anything else.
#[derive(Copy, Clone, Debug, PartialEq, Eq, Structural, Hash)]
pub enum KeyCode {
    Char(char),
    Esc,
    Other,
}

/// One key press: its code and whether Control was held.
#[derive(Copy, Clone, Debug, PartialEq, Eq, Structural, Hash)]
pub struct KeyEvent {
    pub code: KeyCode,
    pub ctrl: bool,
}

/// One event from the input source: a key press, or something the game
/// ignores (a resize, a mouse event).
#[derive(Copy, Clone, Debug, PartialEq, Eq, Structural, Hash)]
pub enum InputEvent {
    Key(KeyEvent),
    Other,
}

/// The most recent input event, or none on the very first frame.
#[derive(Copy, Clone, Debug, PartialEq, Eq, Structural, Hash)]
pub struct TerminalEvent(pub Option<InputEvent>);

/// An event ends the loop when it is Escape or Control+'c'.
pub open spec fn quits(ev: InputEvent) -> bool {
    match ev {
        InputEvent::Key(k) => k.code == KeyCode::Esc || (k.code == KeyCode::Char('c') && k.ctrl),
        InputEvent::Other => false,
    }
}

/// Whether a received event is a quit signal; checked before the event is
/// handed to the movement system for the next cycle.
pub fn should_quit(ev: &InputEvent) -> (b: bool)
    ensures
        b == quits(*ev),
{
    match ev {
        InputEvent::Key(k) => match k.code {
            KeyCode::Esc => true,
            KeyCode::Char(c) => c == 'c' && k.ctrl,
            KeyCode::Other => false,
        },
        InputEvent::Other => false,
    }
}

} // verus!
