//! The renderer and its shapes.

use vstd::prelude::*;

mod color;
pub mod shape;

pub use color::Color;

verus! {

/// A color gradient.
pub struct Gradient {}

/// Something that a renderer can draw.
pub trait Renderable {
}

/// Draws renderable things.
pub struct Renderer {}

} // verus!
