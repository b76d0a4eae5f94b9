//! The bookkeeping of a vertex array whose vertices live in a driver buffer.

use vstd::prelude::*;
use crate::draw::primitive::{from_primitive, primitive_code, Primitive};
use crate::draw::usage::{from_usage, usage_code, Usage};

verus! {

/// The driver work that a change of vertices calls for, in order: delete the
/// old buffer, then create a buffer and upload the vertices into it.
#[derive(Copy, Clone, PartialEq, Eq, Debug, Structural)]
pub struct BufferPlan {
    /// The buffer to delete, when the array had one.
    pub delete: Option<u32>,
    /// The usage code to create the new buffer with, when there are vertices
    /// to upload.
    pub upload: Option<u32>,
}

/// What a vertex array holds: the driver buffer (0 while there is none), the
/// drawing primitive and the usage hint.
pub struct VertexArrayView {
    pub buffer: u32,
    pub primitive: Primitive,
    pub usage: Usage,
}

/// The state of an array of vertices stored in a buffer of the graphics
/// driver, drawn with a primitive and placed by a usage hint.
///
/// The driver cannot change the usage of a buffer, so every change of the
/// vertices or of the usage plans the recreation of the buffer wholesale. An array without
/// vertices has no buffer; its usage hint is kept here until one is created.
pub struct VertexArray {
    buffer: u32,
    primitive: Primitive,
    usage: Usage,
}

impl View for VertexArray {
    type V = VertexArrayView;

    closed spec fn view(&self) -> VertexArrayView {
        VertexArrayView { buffer: self.buffer, primitive: self.primitive, usage: self.usage }
    }
}

impl VertexArray {
    /// An array without vertices: no buffer, the points primitive and the
    /// stream usage.
    pub fn new() -> (r: VertexArray)
        ensures
            r@.buffer == 0,
            r@.primitive == Primitive::Points,
            r@.usage == Usage::Stream,
    {
        VertexArray { buffer: 0, primitive: Primitive::Points, usage: Usage::Stream }
    }

    /// The driver buffer that holds the vertices, or 0 when there is none.
    pub fn buffer(&self) -> (r: u32)
        ensures
            r == self@.buffer,
    {
        self.buffer
    }

    /// The drawing primitive.
    pub fn primitive(&self) -> (r: Primitive)
        ensures
            r == self@.primitive,
    {
        self.primitive
    }

    /// Changes the drawing primitive.
    pub fn set_primitive(&mut self, primitive: Primitive)
        ensures
            final(self)@.primitive == primitive,
            final(self)@.buffer == old(self)@.buffer,
            final(self)@.usage == old(self)@.usage,
    {
        self.primitive = primitive;
    }

    /// The driver's drawing mode for the primitive.
    pub fn draw_mode(&self) -> (r: u32)
        ensures
            r == primitive_code(self@.primitive),
    {
        from_primitive(self.primitive)
    }

    /// The usage hint. Where there is a buffer, it was created with this
    /// hint: every change of the hint plans the buffer's recreation.
    pub fn usage(&self) -> (r: Usage)
        ensures
            r == self@.usage,
    {
        self.usage
    }

    /// Changes the usage hint of an array that holds `vertex_count` vertices,
    /// and plans the recreation of its buffer with the new hint.
    ///
    /// The driver cannot change the usage of a buffer: the old buffer, if
    /// any, is to be deleted, and the vertices uploaded again into a new one
    /// created with the new usage, handed back through `buffer_created`.
    pub fn set_usage(&mut self, usage: Usage, vertex_count: usize) -> (r: BufferPlan)
        ensures
            r.delete == (if old(self)@.buffer != 0 {
                Some(old(self)@.buffer)
            } else {
                None::<u32>
            }),
            r.upload == (if vertex_count > 0 {
                Some(usage_code(usage))
            } else {
                None::<u32>
            }),
            final(self)@.usage == usage,
            final(self)@.buffer == 0,
            final(self)@.primitive == old(self)@.primitive,
    {
        self.usage = usage;
        self.plan_update(vertex_count)
    }

    /// Plans the replacement of the vertices by `vertex_count` new ones.
    ///
    /// The old buffer, if any, is to be deleted, and the array forgets it; a
    /// new buffer with the current usage is to be created only when there
    /// are vertices, and handed back through `buffer_created`.
    pub fn plan_update(&mut self, vertex_count: usize) -> (r: BufferPlan)
        ensures
            r.delete == (if old(self)@.buffer != 0 {
                Some(old(self)@.buffer)
            } else {
                None::<u32>
            }),
            r.upload == (if vertex_count > 0 {
                Some(usage_code(old(self)@.usage))
            } else {
                None::<u32>
            }),
            final(self)@.buffer == 0,
            final(self)@.primitive == old(self)@.primitive,
            final(self)@.usage == old(self)@.usage,
    {
        let delete = if self.buffer != 0 {
            Some(self.buffer)
        } else {
            None
        };
        self.buffer = 0;
        let upload = if vertex_count > 0 {
            Some(from_usage(self.usage))
        } else {
            None
        };
        BufferPlan { delete: delete, upload: upload }
    }

    /// Records the buffer that the driver created for the planned upload.
    pub fn buffer_created(&mut self, buffer: u32)
        requires
            old(self)@.buffer == 0,
            buffer != 0,
        ensures
            final(self)@.buffer == buffer,
            final(self)@.primitive == old(self)@.primitive,
            final(self)@.usage == old(self)@.usage,
    {
        self.buffer = buffer;
    }
}

} // verus!
