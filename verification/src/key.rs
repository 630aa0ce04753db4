//! A key press, as plain data.

use vstd::prelude::*;

verus! {

/// Which key was pressed.
#[derive(Copy, Clone, Debug, PartialEq, Eq, Structural)]
pub enum KeyCode {
    Char(char),
    Enter,
    Esc,
    Tab,
    BackTab,
    Backspace,
    Left,
    Right,
    Up,
    Down,
    Home,
    End,
    PageUp,
    PageDown,
    /// A function key, by its number.
    F(u8),
    /// Any key nothing here has a meaning for.
    Other,
}

/// The modifiers held with it.
#[derive(Copy, Clone, Debug, PartialEq, Eq, Structural)]
pub struct Modifiers {
    pub shift: bool,
    pub control: bool,
    pub alt: bool,
}

impl Modifiers {
    pub fn none() -> (held: Modifiers)
        ensures
            held == (Modifiers { shift: false, control: false, alt: false }),
    {
        Modifiers { shift: false, control: false, alt: false }
    }

    pub fn shift() -> (held: Modifiers)
        ensures
            held == (Modifiers { shift: true, control: false, alt: false }),
    {
        Modifiers { shift: true, control: false, alt: false }
    }

    pub fn control() -> (held: Modifiers)
        ensures
            held == (Modifiers { shift: false, control: true, alt: false }),
    {
        Modifiers { shift: false, control: true, alt: false }
    }

    pub fn alt() -> (held: Modifiers)
        ensures
            held == (Modifiers { shift: false, control: false, alt: true }),
    {
        Modifiers { shift: false, control: false, alt: true }
    }
}

/// One key press: the key and what was held with it.
#[derive(Copy, Clone, Debug, PartialEq, Eq, Structural)]
pub struct KeyEvent {
    pub code: KeyCode,
    pub modifiers: Modifiers,
}

impl KeyEvent {
    pub fn new(code: KeyCode, modifiers: Modifiers) -> (key: KeyEvent)
        ensures
            key == (KeyEvent { code, modifiers }),
    {
        KeyEvent { code, modifiers }
    }

    /// A key that carries no `Ctrl` and no `Alt`. `Shift` does not count: it
    /// is how a capital letter is typed.
    pub open spec fn bare(self) -> bool {
        !self.modifiers.control && !self.modifiers.alt
    }

    /// Whether the key is a typed character.
    pub open spec fn is_char(self) -> bool {
        self.code is Char
    }
}

/// Whether a key means what it says rather than standing for an editing
/// command: neither `Ctrl` nor `Alt` is held.
pub fn is_bare(key: KeyEvent) -> (bare: bool)
    ensures
        bare == key.bare(),
{
    !key.modifiers.control && !key.modifiers.alt
}

} // verus!
