//! The mouse, its buttons and wheels.

use vstd::prelude::*;

verus! {

/// A mouse button.
#[derive(Copy, Clone, PartialEq, Eq, Hash, Debug, Structural)]
pub enum Button {
    /// The left button.
    Left,
    /// The right button.
    Right,
    /// The middle button (usually the wheel itself).
    Middle,
    /// An extra button, numbered (usually on the side of the mouse).
    Extra(u8),
}

/// A mouse wheel.
#[derive(Copy, Clone, PartialEq, Eq, Hash, Debug, Structural)]
pub enum Wheel {
    Horizontal,
    Vertical,
}

/// The real-time state of the mouse.
pub struct Mouse {}

} // verus!
