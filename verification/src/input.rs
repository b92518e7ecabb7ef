//! Terminal input as the pages see it.
//!
//! A terminal backend reports far more than the pages act on.  These types
//! keep what the dispatch rules read: which key, whether Control was held, and
//! whether the key went down, repeated or came up.

use vstd::prelude::*;

verus! {

/// The key that an event is about.
#[derive(Debug, Clone, Copy, PartialEq, Eq, Structural)]
pub enum KeyCode {
    Backspace,
    Enter,
    Up,
    Down,
    Esc,
    /// A character key, with the character it produces.
    Char(char),
    /// Any key that no page acts on.
    Other,
}

/// Whether a key was pressed, is repeating, or was released.
#[derive(Debug, Clone, Copy, PartialEq, Eq, Structural)]
pub enum KeyEventKind {
    Press,
    Repeat,
    Release,
}

/// One key event.
#[derive(Debug, Clone, Copy, PartialEq, Eq, Structural)]
pub struct KeyEvent {
    pub code: KeyCode,
    /// Control was held.
    pub control: bool,
    pub kind: KeyEventKind,
}

impl KeyEvent {
    pub open spec fn spec_is_press(&self) -> bool {
        self.kind is Press
    }

    /// The key went down (as opposed to a repeat or a release).
    #[verifier::when_used_as_spec(spec_is_press)]
    pub fn is_press(&self) -> (b: bool)
        ensures
            b == self.spec_is_press(),
    {
        match self.kind {
            KeyEventKind::Press => true,
            _ => false,
        }
    }
}

/// One event from the terminal.
#[derive(Debug, Clone, Copy, PartialEq, Eq, Structural)]
pub enum InputEvent {
    Key(KeyEvent),
    /// Resize, mouse, focus, paste: nothing that a page acts on.
    Other,
}

impl InputEvent {
    /// The key of a key-press event.
    pub open spec fn pressed_key(self) -> Option<KeyEvent> {
        match self {
            InputEvent::Key(key) => if key.is_press() { Some(key) } else { None },
            InputEvent::Other => None,
        }
    }

    /// The key of a key-press event; `None` for releases, repeats and
    /// everything that is not a key.
    pub fn as_key_press(&self) -> (key: Option<KeyEvent>)
        ensures
            key == self.pressed_key(),
    {
        match self {
            InputEvent::Key(key) => if key.is_press() { Some(*key) } else { None },
            InputEvent::Other => None,
        }
    }
}

} // verus!
