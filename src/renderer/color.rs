//! The color of the renderer: an RGBA color with 8-bit channels.

use vstd::prelude::*;

verus! {

/// A color made of red, green, blue and alpha channels, each from 0 to 255.
#[derive(Debug, Copy, Clone, PartialEq, Eq, Structural)]
pub struct Color {
    pub red: u8,
    pub green: u8,
    pub blue: u8,
    pub alpha: u8,
}

impl Color {
    /// Opaque black.
    pub fn new() -> (r: Color)
        ensures
            r == (Color { red: 0, green: 0, blue: 0, alpha: 255 }),
    {
        Color { red: 0, green: 0, blue: 0, alpha: 255 }
    }

    /// An opaque color from its red, green and blue channels.
    pub fn rgb(red: u8, green: u8, blue: u8) -> (r: Color)
        ensures
            r == (Color { red, green, blue, alpha: 255 }),
    {
        Color { red: red, green: green, blue: blue, alpha: 255 }
    }

    /// A color from its four channels, alpha last.
    pub fn rgba(red: u8, green: u8, blue: u8, alpha: u8) -> (r: Color)
        ensures
            r == (Color { red, green, blue, alpha }),
    {
        Color { red: red, green: green, blue: blue, alpha: alpha }
    }

    /// A color from its four channels, alpha first.
    pub fn argb(alpha: u8, red: u8, green: u8, blue: u8) -> (r: Color)
        ensures
            r == (Color { red, green, blue, alpha }),
    {
        Color { red: red, green: green, blue: blue, alpha: alpha }
    }

    /// Opaque black.
    pub fn black() -> (r: Color)
        ensures
            r == (Color { red: 0, green: 0, blue: 0, alpha: 255 }),
    {
        Color { red: 0, green: 0, blue: 0, alpha: 255 }
    }

    /// Opaque white.
    pub fn white() -> (r: Color)
        ensures
            r == (Color { red: 255, green: 255, blue: 255, alpha: 255 }),
    {
        Color { red: 255, green: 255, blue: 255, alpha: 255 }
    }

    /// Opaque red.
    pub fn red() -> (r: Color)
        ensures
            r == (Color { red: 255, green: 0, blue: 0, alpha: 255 }),
    {
        Color { red: 255, green: 0, blue: 0, alpha: 255 }
    }

    /// Opaque green.
    pub fn green() -> (r: Color)
        ensures
            r == (Color { red: 0, green: 255, blue: 0, alpha: 255 }),
    {
        Color { red: 0, green: 255, blue: 0, alpha: 255 }
    }

    /// Opaque blue.
    pub fn blue() -> (r: Color)
        ensures
            r == (Color { red: 0, green: 0, blue: 255, alpha: 255 }),
    {
        Color { red: 0, green: 0, blue: 255, alpha: 255 }
    }

    /// Opaque yellow.
    pub fn yellow() -> (r: Color)
        ensures
            r == (Color { red: 255, green: 255, blue: 0, alpha: 255 }),
    {
        Color { red: 255, green: 255, blue: 0, alpha: 255 }
    }

    /// Opaque magenta.
    pub fn magenta() -> (r: Color)
        ensures
            r == (Color { red: 255, green: 0, blue: 255, alpha: 255 }),
    {
        Color { red: 255, green: 0, blue: 255, alpha: 255 }
    }

    /// Opaque cyan.
    pub fn cyan() -> (r: Color)
        ensures
            r == (Color { red: 0, green: 255, blue: 255, alpha: 255 }),
    {
        Color { red: 0, green: 255, blue: 255, alpha: 255 }
    }

    /// Fully transparent black.
    pub fn transparent() -> (r: Color)
        ensures
            r == (Color { red: 0, green: 0, blue: 0, alpha: 0 }),
    {
        Color { red: 0, green: 0, blue: 0, alpha: 0 }
    }
}

} // verus!
