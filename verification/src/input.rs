//! Keyboard input as the game reads it: which key, and whether it was
//! pressed, held or let go.

use vstd::prelude::*;

verus! {

/// What happened to a key.
#[derive(Clone, Copy, Debug, PartialEq, Eq, Structural)]
pub enum KeyEventKind {
    Press,
    Repeat,
    Release,
}

/// The key of a key event. The game tells three kinds apart: the escape key,
/// a key that carries a character, and everything else.
#[derive(Clone, Copy, Debug, PartialEq, Eq, Structural)]
pub enum KeyCode {
    Esc,
    Char(char),
    Other,
}

/// One event of the keyboard.
#[derive(Clone, Copy, Debug, PartialEq, Eq, Structural)]
pub struct KeyEvent {
    pub code: KeyCode,
    pub kind: KeyEventKind,
}

/// One event of the terminal: a key event, or anything else (the mouse, a
/// resize, the focus, pasted text).
#[derive(Clone, Copy, Debug, PartialEq, Eq, Structural)]
pub enum Event {
    Key(KeyEvent),
    Other,
}

impl KeyEvent {
    /// The press of the key `code`.
    pub fn new(code: KeyCode) -> (event: KeyEvent)
        ensures
            event == (KeyEvent { code, kind: KeyEventKind::Press }),
    {
        KeyEvent { code, kind: KeyEventKind::Press }
    }

    /// The event of kind `kind` on the key `code`.
    pub fn new_with_kind(code: KeyCode, kind: KeyEventKind) -> (event: KeyEvent)
        ensures
            event == (KeyEvent { code, kind }),
    {
        KeyEvent { code, kind }
    }
}

} // verus!
