//! The drawing primitives.

use vstd::prelude::*;

verus! {

/// How a list of vertices forms shapes.
///
/// Points and lines have no area: they are always one pixel thick.
#[derive(Copy, Clone, PartialEq, Eq, Hash, Debug, Structural)]
pub enum Primitive {
    /// Individual points.
    Points,
    /// Individual lines, one per pair of vertices.
    Lines,
    /// Connected lines: each vertex joins the previous one.
    LineStrips,
    /// Individual triangles, one per three vertices.
    Triangles,
    /// Connected triangles: each vertex forms a triangle with the two before.
    TriangleStrips,
    /// Triangles around the first vertex: each vertex forms a triangle with
    /// the first and the previous one.
    TriangleFans,
}

/// The OpenGL code of `GL_POINTS`.
pub const GL_POINTS: u32 = 0x0000;

/// The OpenGL code of `GL_LINES`.
pub const GL_LINES: u32 = 0x0001;

/// The OpenGL code of `GL_LINE_STRIP`.
pub const GL_LINE_STRIP: u32 = 0x0003;

/// The OpenGL code of `GL_TRIANGLES`.
pub const GL_TRIANGLES: u32 = 0x0004;

/// The OpenGL code of `GL_TRIANGLE_STRIP`.
pub const GL_TRIANGLE_STRIP: u32 = 0x0005;

/// The OpenGL code of `GL_TRIANGLE_FAN`.
pub const GL_TRIANGLE_FAN: u32 = 0x0006;

/// The OpenGL drawing mode of each primitive.
pub open spec fn primitive_code(primitive: Primitive) -> u32 {
    match primitive {
        Primitive::Points => GL_POINTS,
        Primitive::Lines => GL_LINES,
        Primitive::LineStrips => GL_LINE_STRIP,
        Primitive::Triangles => GL_TRIANGLES,
        Primitive::TriangleStrips => GL_TRIANGLE_STRIP,
        Primitive::TriangleFans => GL_TRIANGLE_FAN,
    }
}

/// The OpenGL drawing mode that renders vertices as the given primitive.
pub fn from_primitive(primitive: Primitive) -> (r: u32)
    ensures
        r == primitive_code(primitive),
{
    match primitive {
        Primitive::Points => GL_POINTS,
        Primitive::Lines => GL_LINES,
        Primitive::LineStrips => GL_LINE_STRIP,
        Primitive::Triangles => GL_TRIANGLES,
        Primitive::TriangleStrips => GL_TRIANGLE_STRIP,
        Primitive::TriangleFans => GL_TRIANGLE_FAN,
    }
}

} // verus!
