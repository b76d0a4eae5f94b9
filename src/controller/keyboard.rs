//! The keyboard and its keys.

use vstd::prelude::*;

verus! {

/// The direction of an arrow key.
#[derive(Copy, Clone, PartialEq, Eq, Hash, Debug, Structural)]
pub enum Direction {
    Left,
    Right,
    Up,
    Down,
}

/// A key of the keyboard.
#[derive(Copy, Clone, PartialEq, Eq, Hash, Debug, Structural)]
pub enum Key {
    /// A letter key (A to Z).
    Letter(char),
    /// A number key (0 to 9).
    Number(u8),
    /// The escape key.
    Escape,
    /// A function key (F1 to F24).
    Function(u8),
    /// The control key, left or right.
    Control { left: bool },
    /// The shift key, left or right.
    Shift { left: bool },
    /// The alternate key, left or right.
    Alternate { left: bool },
    /// The system key ('Windows' or 'Command').
    System,
    /// An arrow key.
    Arrow { direction: Direction },
    /// The ; key.
    Semicolon,
    /// The , key.
    Comma,
    /// The . key.
    Period,
    /// The ' key.
    Quote,
    /// The / key.
    Slash,
    /// The \ key.
    Backslash,
    /// The ~ key.
    Tilde,
    /// The = key.
    Equal,
    /// The - key.
    Hyphen,
    /// The space key.
    Space,
    /// The enter key.
    Enter,
    /// The backspace key.
    Backspace,
    /// The tabulation key.
    Tab,
    /// The page up key.
    PageUp,
    /// The page down key.
    PageDown,
    /// The left bracket key.
    LeftBracket,
    /// The right bracket key.
    RightBracket,
    /// The menu key.
    Menu,
    /// The end key.
    End,
    /// The home key.
    Home,
    /// The insert key.
    Insert,
    /// The delete key.
    Delete,
    /// The pause key.
    Pause,
    /// A numpad number key (0 to 9).
    Numpad(u8),
    /// The + key.
    Add,
    /// The - key of the numpad.
    Subtract,
    /// The * key.
    Multiply,
    /// The / key of the numpad.
    Divide,
    /// An unknown key, with its platform identifier.
    Unknown(u32),
}

/// The modifier keys held down during a key event.
#[derive(Copy, Clone, PartialEq, Eq, Hash, Debug, Structural)]
pub struct Modifiers {
    pub control: bool,
    pub shift: bool,
    pub alternate: bool,
    pub system: bool,
}

/// The real-time state of the keyboard.
///
/// Key tracking is not wired to the platform yet: no key ever reads as
/// pressed, and no keyboard reads as connected.
pub struct Keyboard {
    pressed_keys: Vec<Key>,
}

impl Keyboard {
    /// Whether a key is pressed; always false for now.
    pub fn is_key_pressed(&self) -> (r: bool)
        ensures
            !r,
    {
        false
    }

    /// Whether a keyboard is connected; always false for now.
    pub fn is_connected() -> (r: bool)
        ensures
            !r,
    {
        false
    }
}

} // verus!
