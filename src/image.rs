//! Utilities for manipulating 2D grids of pixels.

mod color;
mod image;
mod png_stream;

pub use color::Color;
pub use image::{Error, Image, ImageView};
pub use png_stream::{png_decoded, png_encoded};
