//! The gamepad, its directional pad, joysticks and buttons.

use vstd::prelude::*;

verus! {

/// A direction of the directional pad.
#[derive(Copy, Clone, PartialEq, Eq, Hash, Debug, Structural)]
pub enum DirectionalPad {
    Left,
    Bottom,
    Right,
    Top,
}

/// A joystick of the gamepad.
#[derive(Copy, Clone, PartialEq, Eq, Hash, Debug, Structural)]
pub enum Joystick {
    Left,
    Right,
}

/// A button of the gamepad.
#[derive(Copy, Clone, PartialEq, Eq, Hash, Debug, Structural)]
pub enum Button {
    One,
    Two,
    Three,
    Four,
    L1,
    L2,
    L3,
    R1,
    R2,
    R3,
    Back,
    Start,
}

/// The real-time state of a gamepad.
pub struct Gamepad {}

} // verus!
