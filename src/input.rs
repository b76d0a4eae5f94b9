//! Real-time state of the input devices.

use vstd::prelude::*;

verus! {

/// Gives access to the real-time state of the keyboard.
pub struct Keyboard {}

/// Gives access to the real-time state of the mouse.
pub struct Mouse {}

/// Gives access to the real-time state of gamepads.
pub struct Gamepad {}

/// Gives access to the real-time state of the touch screen.
pub struct Touch {}

/// Gives access to the real-time state of the sensors.
pub struct Sensor {}

} // verus!
