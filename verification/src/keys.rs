//! Keys, as a terminal reports them.

use vstd::prelude::*;

verus! {

/// A key of the keyboard; those that mean nothing here are all alike.
#[derive(Clone, Copy, Debug, PartialEq, Eq, Structural)]
pub enum KeyCode {
    Char(char),
    Enter,
    Esc,
    Backspace,
    Delete,
    Tab,
    BackTab,
    Left,
    Right,
    Up,
    Down,
    Home,
    End,
    PageUp,
    PageDown,
    Other,
}

/// The keys that are held down with another.
#[derive(Clone, Copy, Debug, PartialEq, Eq, Structural)]
pub struct KeyModifiers {
    pub control: bool,
    pub alt: bool,
}

/// A key that was pressed.
#[derive(Clone, Copy, Debug, PartialEq, Eq, Structural)]
pub struct KeyEvent {
    pub code: KeyCode,
    pub modifiers: KeyModifiers,
}

impl KeyEvent {
    /// A key that was pressed alone.
    pub fn plain(code: KeyCode) -> (r: Self)
        ensures
            r.code == code,
            !r.modifiers.control,
            !r.modifiers.alt,
    {
        KeyEvent { code, modifiers: KeyModifiers { control: false, alt: false } }
    }

    /// A key that was pressed with the control key.
    pub fn control(code: KeyCode) -> (r: Self)
        ensures
            r.code == code,
            r.modifiers.control,
            !r.modifiers.alt,
    {
        KeyEvent { code, modifiers: KeyModifiers { control: true, alt: false } }
    }

    /// A key that was pressed with the alt key.
    pub fn alt(code: KeyCode) -> (r: Self)
        ensures
            r.code == code,
            !r.modifiers.control,
            r.modifiers.alt,
    {
        KeyEvent { code, modifiers: KeyModifiers { control: false, alt: true } }
    }
}

} // verus!
