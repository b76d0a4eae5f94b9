//! Input devices: keyboard, mouse, gamepad, touchpad and sensors.

pub mod keyboard;
pub mod mouse;
pub mod gamepad;
pub mod touchpad;
pub mod sensor;
