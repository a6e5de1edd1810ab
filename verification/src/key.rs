//! Key events as the forms see them.

use vstd::prelude::*;

verus! {

/// The logical key of a key event.
#[derive(Clone, Copy, Debug, PartialEq, Eq)]
pub enum Key {
    /// A printable character.
    Char(char),
    /// A function key, by its number.
    F(u8),
    Backspace,
    Enter,
    Left,
    Right,
    Up,
    Down,
    Tab,
    Delete,
    Home,
    End,
    PageUp,
    PageDown,
    Esc,
    /// No key: every editor and every form ignores it.
    Null,
}

/// A key event: the key and the modifiers held with it.
#[derive(Clone, Copy, Debug, PartialEq, Eq)]
pub struct Input {
    pub key: Key,
    pub ctrl: bool,
    pub alt: bool,
    pub shift: bool,
}

impl Key {
    /// Whether the key is one of the four arrow keys.
    pub open spec fn is_arrow(self) -> bool {
        self is Up || self is Down || self is Left || self is Right
    }
}

impl Input {
    /// Whether the event is a character typed without Ctrl or Alt.
    pub open spec fn is_typed(self) -> bool {
        self.key is Char && !self.ctrl && !self.alt
    }

    /// The character of the event, where its key is a character.
    pub open spec fn typed_char(self) -> char {
        self.key->Char_0
    }

    /// Whether the event is a character other than a line break, typed
    /// without Ctrl or Alt: it goes into the line as it is.
    pub open spec fn is_text(self) -> bool {
        self.is_typed() && self.typed_char() != '\n' && self.typed_char() != '\r'
    }

    /// The event of `key` pressed with no modifier.
    pub fn plain(key: Key) -> (r: Input)
        ensures
            r == (Input { key, ctrl: false, alt: false, shift: false }),
    {
        Input { key, ctrl: false, alt: false, shift: false }
    }
}

} // verus!
