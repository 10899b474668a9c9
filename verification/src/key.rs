//! Canonical, backend-independent representation of key presses.

use vstd::prelude::*;

verus! {

/// The modifier keys held during a key press.
#[derive(Clone, Copy, Debug, PartialEq, Eq, Structural, Hash)]
pub struct KeyModifiers {
    pub shift: bool,
    pub control: bool,
    pub alt: bool,
}

impl KeyModifiers {
    /// The empty set of modifiers.
    pub open spec fn spec_none() -> KeyModifiers {
        KeyModifiers { shift: false, control: false, alt: false }
    }

    /// No modifier held.
    #[verifier::when_used_as_spec(spec_none)]
    pub fn none() -> (m: KeyModifiers)
        ensures
            m == Self::spec_none(),
    {
        KeyModifiers { shift: false, control: false, alt: false }
    }

    /// Only the control key held.
    pub fn control() -> (m: KeyModifiers)
        ensures
            m == (KeyModifiers { shift: false, control: true, alt: false }),
    {
        KeyModifiers { shift: false, control: true, alt: false }
    }

    /// Only the shift key held.
    pub fn shift() -> (m: KeyModifiers)
        ensures
            m == (KeyModifiers { shift: true, control: false, alt: false }),
    {
        KeyModifiers { shift: true, control: false, alt: false }
    }

    /// Only the alt key held.
    pub fn alt() -> (m: KeyModifiers)
        ensures
            m == (KeyModifiers { shift: false, control: false, alt: true }),
    {
        KeyModifiers { shift: false, control: false, alt: true }
    }

    /// Tells whether no modifier is held.
    pub fn is_empty(&self) -> (r: bool)
        ensures
            r == (*self == Self::spec_none()),
    {
        !self.shift && !self.control && !self.alt
    }
}

/// A key press as the prompt understands it.
///
/// `Cancel`, `Submit` and `Interrupt` are semantic keys, derived from the raw
/// event whatever the literal key means elsewhere.
#[derive(Clone, Copy, Debug, PartialEq, Eq, Structural, Hash)]
pub enum Key {
    Cancel,
    Submit,
    Interrupt,
    Backspace,
    Tab,
    Delete(KeyModifiers),
    Home,
    End,
    PageUp,
    PageDown,
    Up(KeyModifiers),
    Down(KeyModifiers),
    Left(KeyModifiers),
    Right(KeyModifiers),
    Char(char, KeyModifiers),
    Any,
}

/// The physical key of a raw event, as a terminal backend reports it.
#[derive(Clone, Copy, Debug, PartialEq, Eq, Structural, Hash)]
pub enum RawCode {
    Char(char),
    Enter,
    Esc,
    Backspace,
    Tab,
    Delete,
    Home,
    End,
    PageUp,
    PageDown,
    Up,
    Down,
    Left,
    Right,
    Other,
}

/// A raw key event: the physical key and the modifiers held with it.
#[derive(Clone, Copy, Debug, PartialEq, Eq, Structural, Hash)]
pub struct RawKey {
    pub code: RawCode,
    pub modifiers: KeyModifiers,
}

/// The canonical key of a raw event.
///
/// Escape is always `Cancel`, Ctrl+C always `Interrupt`, Enter (or a line
/// break character) always `Submit`; every other event keeps its key and its
/// modifiers.
pub open spec fn canonical_key(raw: RawKey) -> Key {
    let m = raw.modifiers;
    match raw.code {
        RawCode::Esc => Key::Cancel,
        RawCode::Enter => Key::Submit,
        RawCode::Char(c) => if c == 'c' && m.control {
            Key::Interrupt
        } else if c == '\n' || c == '\r' {
            Key::Submit
        } else if c == '\t' {
            Key::Tab
        } else {
            Key::Char(c, m)
        },
        RawCode::Backspace => Key::Backspace,
        RawCode::Tab => Key::Tab,
        RawCode::Delete => Key::Delete(m),
        RawCode::Home => Key::Home,
        RawCode::End => Key::End,
        RawCode::PageUp => Key::PageUp,
        RawCode::PageDown => Key::PageDown,
        RawCode::Up => Key::Up(m),
        RawCode::Down => Key::Down(m),
        RawCode::Left => Key::Left(m),
        RawCode::Right => Key::Right(m),
        RawCode::Other => Key::Any,
    }
}

impl Key {
    /// Maps a raw key event onto its canonical key.
    pub fn from_raw(raw: RawKey) -> (key: Key)
        ensures
            key == canonical_key(raw),
    {
        let m = raw.modifiers;
        match raw.code {
            RawCode::Esc => Key::Cancel,
            RawCode::Enter => Key::Submit,
            RawCode::Char(c) => {
                if c == 'c' && m.control {
                    Key::Interrupt
                } else if c == '\n' || c == '\r' {
                    Key::Submit
                } else if c == '\t' {
                    Key::Tab
                } else {
                    Key::Char(c, m)
                }
            },
            RawCode::Backspace => Key::Backspace,
            RawCode::Tab => Key::Tab,
            RawCode::Delete => Key::Delete(m),
            RawCode::Home => Key::Home,
            RawCode::End => Key::End,
            RawCode::PageUp => Key::PageUp,
            RawCode::PageDown => Key::PageDown,
            RawCode::Up => Key::Up(m),
            RawCode::Down => Key::Down(m),
            RawCode::Left => Key::Left(m),
            RawCode::Right => Key::Right(m),
            RawCode::Other => Key::Any,
        }
    }

    /// Exact equality of two keys: same key, same modifiers.
    pub fn matches(&self, other: &Key) -> (r: bool)
        ensures
            r == (*self == *other),
    {
        *self == *other
    }
}

} // verus!
