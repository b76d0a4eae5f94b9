//! An RGBA color with 8-bit channels.

use vstd::prelude::*;

verus! {

/// A color made of red, green, blue and alpha channels, each from 0 to 255.
#[derive(Debug, Copy, Clone, PartialEq, Eq, Structural)]
pub struct Color {
    pub red: u8,
    pub green: u8,
    pub blue: u8,
    pub alpha: u8,
}

/// The sum of two channel values, saturated at 255.
pub open spec fn channel_sum(a: u8, b: u8) -> u8 {
    if a + b > 255 {
        255u8
    } else {
        (a + b) as u8
    }
}

/// The channel-wise saturating sum of two colors.
pub open spec fn color_sum(a: Color, b: Color) -> Color {
    Color {
        red: channel_sum(a.red, b.red),
        green: channel_sum(a.green, b.green),
        blue: channel_sum(a.blue, b.blue),
        alpha: channel_sum(a.alpha, b.alpha),
    }
}

fn add_channel(a: u8, b: u8) -> (r: u8)
    ensures
        r == channel_sum(a, b),
{
    if a > 255 - b {
        255
    } else {
        a + b
    }
}

impl Color {
    /// Opaque black.
    pub fn new() -> (r: Color)
        ensures
            r == (Color { red: 0, green: 0, blue: 0, alpha: 255 }),
    {
        Color { red: 0, green: 0, blue: 0, alpha: 255 }
    }

    /// An opaque color from its red, green and blue channels.
    pub fn rgb(red: u8, green: u8, blue: u8) -> (r: Color)
        ensures
            r == (Color { red, green, blue, alpha: 255 }),
    {
        Color { red: red, green: green, blue: blue, alpha: 255 }
    }

    /// A color from its four channels, alpha last.
    pub fn rgba(red: u8, green: u8, blue: u8, alpha: u8) -> (r: Color)
        ensures
            r == (Color { red, green, blue, alpha }),
    {
        Color { red: red, green: green, blue: blue, alpha: alpha }
    }

    /// A color from its four channels, alpha first.
    pub fn argb(alpha: u8, red: u8, green: u8, blue: u8) -> (r: Color)
        ensures
            r == (Color { red, green, blue, alpha }),
    {
        Color { red: red, green: green, blue: blue, alpha: alpha }
    }

    /// Opaque black.
    pub fn black() -> (r: Color)
        ensures
            r == (Color { red: 0, green: 0, blue: 0, alpha: 255 }),
    {
        Color { red: 0, green: 0, blue: 0, alpha: 255 }
    }

    /// Opaque white.
    pub fn white() -> (r: Color)
        ensures
            r == (Color { red: 255, green: 255, blue: 255, alpha: 255 }),
    {
        Color { red: 255, green: 255, blue: 255, alpha: 255 }
    }

    /// Opaque red.
    pub fn red() -> (r: Color)
        ensures
            r == (Color { red: 255, green: 0, blue: 0, alpha: 255 }),
    {
        Color { red: 255, green: 0, blue: 0, alpha: 255 }
    }

    /// Opaque green.
    pub fn green() -> (r: Color)
        ensures
            r == (Color { red: 0, green: 255, blue: 0, alpha: 255 }),
    {
        Color { red: 0, green: 255, blue: 0, alpha: 255 }
    }

    /// Opaque blue.
    pub fn blue() -> (r: Color)
        ensures
            r == (Color { red: 0, green: 0, blue: 255, alpha: 255 }),
    {
        Color { red: 0, green: 0, blue: 255, alpha: 255 }
    }

    /// Opaque yellow.
    pub fn yellow() -> (r: Color)
        ensures
            r == (Color { red: 255, green: 255, blue: 0, alpha: 255 }),
    {
        Color { red: 255, green: 255, blue: 0, alpha: 255 }
    }

    /// Opaque magenta.
    pub fn magenta() -> (r: Color)
        ensures
            r == (Color { red: 255, green: 0, blue: 255, alpha: 255 }),
    {
        Color { red: 255, green: 0, blue: 255, alpha: 255 }
    }

    /// Opaque cyan.
    pub fn cyan() -> (r: Color)
        ensures
            r == (Color { red: 0, green: 255, blue: 255, alpha: 255 }),
    {
        Color { red: 0, green: 255, blue: 255, alpha: 255 }
    }

    /// Fully transparent black.
    pub fn transparent() -> (r: Color)
        ensures
            r == (Color { red: 0, green: 0, blue: 0, alpha: 0 }),
    {
        Color { red: 0, green: 0, blue: 0, alpha: 0 }
    }
}

impl Default for Color {
    /// The default color is opaque black.
    fn default() -> (r: Color)
        ensures
            r == (Color { red: 0, green: 0, blue: 0, alpha: 255 }),
    {
        Color::new()
    }
}

impl core::ops::Add for Color {
    type Output = Color;

    /// Adds two colors channel by channel, each channel saturating at 255.
    fn add(self, other: Color) -> (r: Color) {
        Color {
            red: add_channel(self.red, other.red),
            green: add_channel(self.green, other.green),
            blue: add_channel(self.blue, other.blue),
            alpha: add_channel(self.alpha, other.alpha),
        }
    }
}

impl vstd::std_specs::ops::AddSpecImpl for Color {
    open spec fn obeys_add_spec() -> bool {
        true
    }

    open spec fn add_req(self, rhs: Color) -> bool {
        true
    }

    open spec fn add_spec(self, rhs: Color) -> Color {
        color_sum(self, rhs)
    }
}

impl core::ops::AddAssign for Color {
    /// Adds a color to this one, channel by channel, saturating at 255.
    fn add_assign(&mut self, other: Color)
        ensures
            *final(self) == color_sum(*old(self), other),
    {
        *self = *self + other;
    }
}

} // verus!
