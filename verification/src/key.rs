use vstd::prelude::*;

verus! {

/// The identity of a terminal key press, as far as the composer needs to
/// distinguish keys. Keys the composer does not know are mapped to `Null`
/// by the surrounding application and are ignored by the text buffer.
#[derive(Clone, Copy, PartialEq, Eq, Structural, Debug)]
pub enum Key {
    Char(char),
    Enter,
    Esc,
    Up,
    Down,
    Left,
    Right,
    Tab,
    Backspace,
    Delete,
    Home,
    End,
    Null,
}

/// A terminal key press: a key identity plus modifier flags.
#[derive(Clone, Copy, PartialEq, Eq, Structural, Debug)]
pub struct KeyEvent {
    pub key: Key,
    pub ctrl: bool,
    pub alt: bool,
    pub shift: bool,
}

impl KeyEvent {
    /// Escape with no modifiers: the two-stage clear gesture.
    pub open spec fn is_plain_esc(self) -> bool {
        self.key is Esc && !self.ctrl && !self.alt && !self.shift
    }

    /// Enter with no modifiers: submission.
    pub open spec fn is_plain_enter(self) -> bool {
        self.key is Enter && !self.ctrl && !self.alt && !self.shift
    }

    /// Enter with a modifier, or the Ctrl+J chord: insert a literal newline.
    pub open spec fn is_newline_chord(self) -> bool {
        ||| (self.key is Enter && (self.ctrl || self.alt || self.shift))
        ||| (self.key == Key::Char('j') && self.ctrl && !self.alt && !self.shift)
    }

    /// A plain printable character: inserted into the buffer at the cursor.
    pub open spec fn is_plain_char(self) -> bool {
        &&& self.key is Char
        &&& !self.ctrl
        &&& !self.alt
        &&& self.key->0 != '\n'
        &&& self.key->0 != '\r'
    }
}

} // verus!
