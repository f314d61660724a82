//! Descriptions of the driver calls the library decides to make.
//!
//! The underlying graphics API is driven through global, unchecked calls.
//! Instead of making those calls directly, every verified operation
//! returns [`GlCommand`] values that say exactly which call to make and
//! with which arguments; unverified glue code translates each value into
//! the one driver call it names.

use vstd::prelude::*;

use crate::buffer_object::{Target, Usage};
use crate::data::Type;
use crate::drawcall::Primitive;
use crate::object::Handle;

verus! {

/// One driver call, with every argument the library decided.
///
/// Byte counts and offsets are in bytes. A `handle` equal to
/// [`crate::object::NullHandle`] in a bind command clears the slot.
#[derive(Clone, Copy, Debug, PartialEq, Eq, Structural)]
#[allow(inconsistent_fields)]
pub enum GlCommand {
    /// Make `handle` current for `target`.
    BindBuffer { target: Target, handle: Handle },
    /// Release the buffer `handle`.
    DeleteBuffer { handle: Handle },
    /// Replace the whole backing store of the buffer currently bound to
    /// `target` with `byte_size` bytes, tagged with `usage`.
    BufferData { target: Target, byte_size: usize, usage: Usage },
    /// Overwrite `byte_size` bytes at `byte_offset` of the buffer
    /// currently bound to `target`.
    BufferSubData { target: Target, byte_offset: usize, byte_size: usize },
    /// Make the vertex array `handle` current.
    BindVertexArray { handle: Handle },
    /// Release the vertex array `handle`.
    DeleteVertexArray { handle: Handle },
    /// Describe how attribute slot `location` reads the currently bound
    /// vertex buffer.
    VertexAttribPointer {
        location: u32,
        components: i32,
        data_type: Type,
        normalized: bool,
        stride: i32,
        offset: i32,
    },
    /// Enable attribute slot `location`.
    EnableVertexAttribArray { location: u32 },
    /// Draw `count` vertices starting at vertex slot `first`, non-indexed.
    DrawArrays { primitive: Primitive, first: i32, count: i32 },
    /// Draw `count` indices of `index_type`, read from the currently
    /// bound index buffer starting at `byte_offset`.
    DrawElements { primitive: Primitive, count: i32, index_type: Type, byte_offset: i32 },
    /// Attach the compiled shader `shader` to the program `program`.
    AttachShader { program: Handle, shader: Handle },
    /// Detach the shader `shader` from the program `program`.
    DetachShader { program: Handle, shader: Handle },
    /// Link the program `program` from its attached shaders.
    LinkProgram { program: Handle },
    /// Release the shader `handle`.
    DeleteShader { handle: Handle },
    /// Release the program `handle`.
    DeleteProgram { handle: Handle },
    /// Make the program `handle` the active pipeline.
    UseProgram { handle: Handle },
}

} // verus!
