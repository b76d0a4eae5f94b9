//! The sampling parameters of textures and their driver codes.

use vstd::prelude::*;

verus! {

/// The OpenGL code of `GL_NEAREST`.
pub const GL_NEAREST: u32 = 0x2600;

/// The OpenGL code of `GL_LINEAR`.
pub const GL_LINEAR: u32 = 0x2601;

/// The OpenGL code of `GL_REPEAT`.
pub const GL_REPEAT: u32 = 0x2901;

/// The OpenGL code of `GL_CLAMP_TO_EDGE`.
pub const GL_CLAMP_TO_EDGE: u32 = 0x812F;

/// The filter of a smooth texture is linear; that of a pixelated one is
/// nearest.
pub open spec fn filter_of(smooth: bool) -> u32 {
    if smooth {
        GL_LINEAR
    } else {
        GL_NEAREST
    }
}

/// A repeated texture wraps with `GL_REPEAT`; another one clamps to its edge.
pub open spec fn wrap_of(repeated: bool) -> u32 {
    if repeated {
        GL_REPEAT
    } else {
        GL_CLAMP_TO_EDGE
    }
}

/// The filter code for the magnification and the minification of a texture.
pub fn filter_code(smooth: bool) -> (r: u32)
    ensures
        r == filter_of(smooth),
{
    if smooth {
        GL_LINEAR
    } else {
        GL_NEAREST
    }
}

/// Whether the filter codes that the driver reports are those of a smooth
/// texture.
///
/// The driver reports the codes that the library set: both filters alike,
/// each linear or nearest.
pub fn is_smooth_filter(mag_filter: u32, min_filter: u32) -> (r: bool)
    requires
        mag_filter == min_filter,
        mag_filter == GL_LINEAR || mag_filter == GL_NEAREST,
    ensures
        filter_of(r) == mag_filter,
{
    mag_filter == GL_LINEAR
}

/// The wrap code for both texture axes.
pub fn wrap_code(repeated: bool) -> (r: u32)
    ensures
        r == wrap_of(repeated),
{
    if repeated {
        GL_REPEAT
    } else {
        GL_CLAMP_TO_EDGE
    }
}

/// Whether the wrap codes that the driver reports are those of a repeated
/// texture.
///
/// The driver reports the codes that the library set: both axes alike, each
/// repeating or clamping to the edge.
pub fn is_repeat_wrap(wrap_s: u32, wrap_t: u32) -> (r: bool)
    requires
        wrap_s == wrap_t,
        wrap_s == GL_REPEAT || wrap_s == GL_CLAMP_TO_EDGE,
    ensures
        wrap_of(r) == wrap_s,
{
    wrap_s == GL_REPEAT
}

} // verus!
