//! The input events that the screens react to.

use vstd::prelude::*;

verus! {

/// The key of a key event. The screens tell the arrow keys, Enter, Esc and
/// the characters apart; every other key is `Other`.
#[derive(Clone, Copy, PartialEq, Eq, Debug, Structural)]
pub enum KeyCode {
    Up,
    Down,
    Left,
    Right,
    Enter,
    Esc,
    Char(char),
    Other,
}

impl KeyCode {
    /// The up arrow or `k`.
    pub open spec fn spec_is_up(self) -> bool {
        self == KeyCode::Up || self == KeyCode::Char('k')
    }

    /// Whether this is the up arrow or `k`.
    #[verifier::when_used_as_spec(spec_is_up)]
    pub fn is_up(self) -> (up: bool)
        ensures
            up == self.spec_is_up(),
    {
        match self {
            KeyCode::Up => true,
            KeyCode::Char(c) => c == 'k',
            _ => false,
        }
    }

    /// The down arrow or `j`.
    pub open spec fn spec_is_down(self) -> bool {
        self == KeyCode::Down || self == KeyCode::Char('j')
    }

    /// Whether this is the down arrow or `j`.
    #[verifier::when_used_as_spec(spec_is_down)]
    pub fn is_down(self) -> (down: bool)
        ensures
            down == self.spec_is_down(),
    {
        match self {
            KeyCode::Down => true,
            KeyCode::Char(c) => c == 'j',
            _ => false,
        }
    }

    /// The left arrow or `h`.
    pub open spec fn spec_is_left(self) -> bool {
        self == KeyCode::Left || self == KeyCode::Char('h')
    }

    /// Whether this is the left arrow or `h`.
    #[verifier::when_used_as_spec(spec_is_left)]
    pub fn is_left(self) -> (left: bool)
        ensures
            left == self.spec_is_left(),
    {
        match self {
            KeyCode::Left => true,
            KeyCode::Char(c) => c == 'h',
            _ => false,
        }
    }

    /// The right arrow or `l`.
    pub open spec fn spec_is_right(self) -> bool {
        self == KeyCode::Right || self == KeyCode::Char('l')
    }

    /// Whether this is the right arrow or `l`.
    #[verifier::when_used_as_spec(spec_is_right)]
    pub fn is_right(self) -> (right: bool)
        ensures
            right == self.spec_is_right(),
    {
        match self {
            KeyCode::Right => true,
            KeyCode::Char(c) => c == 'l',
            _ => false,
        }
    }
}

/// Whether a key went down, is held, or came up.
#[derive(Clone, Copy, PartialEq, Eq, Debug, Structural)]
pub enum KeyEventKind {
    Press,
    Repeat,
    Release,
}

/// One key event.
#[derive(Clone, Copy, PartialEq, Eq, Debug, Structural)]
pub struct KeyEvent {
    pub code: KeyCode,
    pub kind: KeyEventKind,
}

impl KeyEvent {
    /// The event of pressing `code`.
    pub fn press(code: KeyCode) -> (event: KeyEvent)
        ensures
            event == (KeyEvent { code, kind: KeyEventKind::Press }),
    {
        KeyEvent { code, kind: KeyEventKind::Press }
    }
}

/// One input event.
#[derive(Debug)]
pub enum Event {
    Key(KeyEvent),
    Paste(String),
    Other,
}

} // verus!
