//! Drawing: primitives, usage hints, texture parameters and vertex arrays.
//!
//! Rendering goes through OpenGL ES. This module holds what the library
//! decides on its own side of that API: the codes that name its enumerations
//! there, and the bookkeeping of vertex buffers held by the driver. The
//! driver calls themselves are made by the caller, as the plans say.

use vstd::prelude::*;

mod primitive;
mod texture;
mod usage;
mod vertex_array;

pub use primitive::{from_primitive, Primitive};
pub use texture::{filter_code, is_repeat_wrap, is_smooth_filter, wrap_code};
pub use usage::{from_usage, is_usage_code, to_usage, Usage};
pub use vertex_array::{BufferPlan, VertexArray, VertexArrayView};

verus! {

/// Options for the creation of a surface; every option is left to the
/// platform's choice when unset.
#[derive(Default)]
pub struct Options {
    depth_bits: Option<u32>,
    stencil_bits: Option<u32>,
    antialiasing_level: Option<u32>,
    srgb: Option<u32>,
    vsync: Option<u32>,
    debug: Option<u32>,
}

/// A font.
pub struct Font {}

} // verus!
