//! Draw-call descriptors: primitive topology, vertex range, and optional
//! index type.

use vstd::prelude::*;

use crate::command::GlCommand;
use crate::data::Type;
use crate::element_buffer_object::spec_supported_index_type;

verus! {

/// Primitive topology of a draw call.
#[derive(Clone, Copy, Debug, PartialEq, Eq, Structural)]
pub enum Primitive {
    Points,
    Lines,
    LineStrip,
    LineLoop,
    LinesAdjacency,
    LineStripAdjacency,
    Triangles,
    TriangleStrip,
    TriangleFan,
    TrianglesAdjacency,
    TriangleStripAdjacency,
    Patches,
}

/// A value describing one draw invocation. `index_type == Type::NoType`
/// means a non-indexed draw over `[first, first + count)` vertex slots;
/// any other index type means an indexed draw of `count` indices starting
/// at byte offset `first` of the currently bound index buffer.
#[derive(Clone, Copy, Debug, PartialEq, Eq, Structural)]
pub struct DrawCall {
    primitive: Primitive,
    first: i32,
    count: i32,
    index_type: Type,
}

impl DrawCall {
    /// The primitive topology to draw.
    pub closed spec fn spec_primitive(self) -> Primitive {
        self.primitive
    }

    /// First vertex slot (non-indexed) or byte offset (indexed).
    pub closed spec fn spec_first(self) -> i32 {
        self.first
    }

    /// Number of vertices or indices to draw.
    pub closed spec fn spec_count(self) -> i32 {
        self.count
    }

    /// Index type, or `Type::NoType` for a non-indexed draw.
    pub closed spec fn spec_index_type(self) -> Type {
        self.index_type
    }

    /// A non-indexed draw call over one vertex starting at slot 0.
    pub fn new(primitive: Primitive) -> (r: Self)
        ensures
            r.spec_primitive() == primitive,
            r.spec_first() == 0,
            r.spec_count() == 1,
            r.spec_index_type() == Type::NoType,
    {
        DrawCall { primitive, first: 0, count: 1, index_type: Type::NoType }
    }

    /// `value` with its first vertex slot (or byte offset) replaced.
    pub fn first(value: Self, first: i32) -> (r: Self)
        ensures
            r.spec_primitive() == value.spec_primitive(),
            r.spec_first() == first,
            r.spec_count() == value.spec_count(),
            r.spec_index_type() == value.spec_index_type(),
    {
        DrawCall { first, ..value }
    }

    /// `value` with its vertex (or index) count replaced.
    pub fn count(value: Self, count: i32) -> (r: Self)
        ensures
            r.spec_primitive() == value.spec_primitive(),
            r.spec_first() == value.spec_first(),
            r.spec_count() == count,
            r.spec_index_type() == value.spec_index_type(),
    {
        DrawCall { count, ..value }
    }

    /// `value` drawing indexed with `index_type`, which must be one of
    /// the driver-supported unsigned integer index types.
    pub fn index_type(value: Self, index_type: Type) -> (r: Self)
        requires
            spec_supported_index_type(index_type),
        ensures
            r.spec_primitive() == value.spec_primitive(),
            r.spec_first() == value.spec_first(),
            r.spec_count() == value.spec_count(),
            r.spec_index_type() == index_type,
    {
        DrawCall { index_type, ..value }
    }

    /// The single driver call this draw call stands for: a non-indexed
    /// draw when no index type is set, an indexed draw otherwise.
    pub fn draw(&self) -> (c: GlCommand)
        ensures
            self.spec_index_type() is NoType ==> c == (GlCommand::DrawArrays {
                primitive: self.spec_primitive(),
                first: self.spec_first(),
                count: self.spec_count(),
            }),
            !(self.spec_index_type() is NoType) ==> c == (GlCommand::DrawElements {
                primitive: self.spec_primitive(),
                count: self.spec_count(),
                index_type: self.spec_index_type(),
                byte_offset: self.spec_first(),
            }),
    {
        if matches!(self.index_type, Type::NoType) {
            GlCommand::DrawArrays { primitive: self.primitive, first: self.first, count: self.count }
        } else {
            GlCommand::DrawElements {
                primitive: self.primitive,
                count: self.count,
                index_type: self.index_type,
                byte_offset: self.first,
            }
        }
    }
}

} // verus!
