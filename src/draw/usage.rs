//! The usage hints of vertex buffers.

use vstd::prelude::*;

verus! {

/// A hint to the graphics driver about how often vertex data changes, so
/// that it can place the data well.
#[derive(Copy, Clone, PartialEq, Eq, Hash, Debug, Structural)]
pub enum Usage {
    /// Data set once and drawn many times.
    Static,
    /// Data changed now and then, and drawn many times.
    Dynamic,
    /// Data set once and drawn a few times.
    Stream,
}

/// The OpenGL code of `GL_STATIC_DRAW`.
pub const GL_STATIC_DRAW: u32 = 0x88E4;

/// The OpenGL code of `GL_DYNAMIC_DRAW`.
pub const GL_DYNAMIC_DRAW: u32 = 0x88E8;

/// The OpenGL code of `GL_STREAM_DRAW`.
pub const GL_STREAM_DRAW: u32 = 0x88E0;

/// The OpenGL buffer usage code of each hint.
pub open spec fn usage_code(usage: Usage) -> u32 {
    match usage {
        Usage::Static => GL_STATIC_DRAW,
        Usage::Dynamic => GL_DYNAMIC_DRAW,
        Usage::Stream => GL_STREAM_DRAW,
    }
}

/// The OpenGL buffer usage code of a hint.
pub fn from_usage(usage: Usage) -> (r: u32)
    ensures
        r == usage_code(usage),
{
    match usage {
        Usage::Static => GL_STATIC_DRAW,
        Usage::Dynamic => GL_DYNAMIC_DRAW,
        Usage::Stream => GL_STREAM_DRAW,
    }
}

/// Whether a code names one of the three usage hints.
pub fn is_usage_code(code: u32) -> (r: bool)
    ensures
        r <==> exists|u: Usage| usage_code(u) == code,
{
    let r = code == GL_STATIC_DRAW || code == GL_DYNAMIC_DRAW || code == GL_STREAM_DRAW;
    assert(usage_code(Usage::Static) == GL_STATIC_DRAW);
    assert(usage_code(Usage::Dynamic) == GL_DYNAMIC_DRAW);
    assert(usage_code(Usage::Stream) == GL_STREAM_DRAW);
    r
}

/// The usage hint that an OpenGL buffer usage code names.
///
/// The driver only reports the codes that the library set, so any other code
/// is left out.
pub fn to_usage(code: u32) -> (r: Usage)
    requires
        exists|u: Usage| usage_code(u) == code,
    ensures
        usage_code(r) == code,
{
    if code == GL_STATIC_DRAW {
        Usage::Static
    } else if code == GL_DYNAMIC_DRAW {
        Usage::Dynamic
    } else {
        Usage::Stream
    }
}

} // verus!
