//! Decoded keys, and the raw key events they are decoded from.
use vstd::prelude::*;

verus! {

/// A decoded keyboard event, or the heartbeat marker `Tick`.
#[derive(Clone, Copy, Debug, PartialEq, Eq, Structural)]
pub enum Key {
    Enter,
    Tab,
    BackTab,
    Backspace,
    Esc,
    Left,
    Right,
    Up,
    Down,
    Home,
    End,
    PageUp,
    PageDown,
    Delete,
    Insert,
    F(u8),
    Char(char),
    Ctrl(char),
    Alt(char),
    Unknown,
    /// No key arrived in this interval: a heartbeat, not a key press.
    Tick,
}

/// The code of a raw key press, as the terminal reports it.
#[derive(Clone, Copy, Debug, PartialEq, Eq, Structural)]
pub enum RawCode {
    Enter,
    Tab,
    BackTab,
    Backspace,
    Esc,
    Left,
    Right,
    Up,
    Down,
    Home,
    End,
    PageUp,
    PageDown,
    Delete,
    Insert,
    F(u8),
    Char(char),
    /// Any code without a key of its own (media keys, lone modifiers, ...).
    Other,
}

/// A raw key press: its code and the modifiers held with it.
#[derive(Clone, Copy, Debug, PartialEq, Eq, Structural)]
pub struct RawKey {
    pub code: RawCode,
    pub ctrl: bool,
    pub alt: bool,
}

impl Key {
    /// Whether this is the heartbeat marker rather than a key press.
    pub open spec fn is_heartbeat(self) -> bool {
        self is Tick
    }
}

/// The key a raw key press decodes to. A character held with control reads
/// as `Ctrl`, else held with alt as `Alt`; modifiers on other codes are
/// ignored.
pub open spec fn decoded(raw: RawKey) -> Key {
    match raw.code {
        RawCode::Enter => Key::Enter,
        RawCode::Tab => Key::Tab,
        RawCode::BackTab => Key::BackTab,
        RawCode::Backspace => Key::Backspace,
        RawCode::Esc => Key::Esc,
        RawCode::Left => Key::Left,
        RawCode::Right => Key::Right,
        RawCode::Up => Key::Up,
        RawCode::Down => Key::Down,
        RawCode::Home => Key::Home,
        RawCode::End => Key::End,
        RawCode::PageUp => Key::PageUp,
        RawCode::PageDown => Key::PageDown,
        RawCode::Delete => Key::Delete,
        RawCode::Insert => Key::Insert,
        RawCode::F(n) => Key::F(n),
        RawCode::Char(c) => if raw.ctrl {
            Key::Ctrl(c)
        } else if raw.alt {
            Key::Alt(c)
        } else {
            Key::Char(c)
        },
        RawCode::Other => Key::Unknown,
    }
}

/// A decoded key is never the heartbeat marker.
pub proof fn lemma_decoded_is_key(raw: RawKey)
    ensures
        !decoded(raw).is_heartbeat(),
{
}

impl Key {
    /// Decodes a raw key press.
    pub fn from_raw(raw: RawKey) -> (r: Key)
        ensures
            r == decoded(raw),
            !r.is_heartbeat(),
    {
        match raw.code {
            RawCode::Enter => Key::Enter,
            RawCode::Tab => Key::Tab,
            RawCode::BackTab => Key::BackTab,
            RawCode::Backspace => Key::Backspace,
            RawCode::Esc => Key::Esc,
            RawCode::Left => Key::Left,
            RawCode::Right => Key::Right,
            RawCode::Up => Key::Up,
            RawCode::Down => Key::Down,
            RawCode::Home => Key::Home,
            RawCode::End => Key::End,
            RawCode::PageUp => Key::PageUp,
            RawCode::PageDown => Key::PageDown,
            RawCode::Delete => Key::Delete,
            RawCode::Insert => Key::Insert,
            RawCode::F(n) => Key::F(n),
            RawCode::Char(c) => {
                if raw.ctrl {
                    Key::Ctrl(c)
                } else if raw.alt {
                    Key::Alt(c)
                } else {
                    Key::Char(c)
                }
            },
            RawCode::Other => Key::Unknown,
        }
    }

    /// Whether this is the heartbeat marker.
    pub fn is_none(&self) -> (r: bool)
        ensures
            r == self.is_heartbeat(),
    {
        match self {
            Key::Tick => true,
            _ => false,
        }
    }
}

} // verus!
