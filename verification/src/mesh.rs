//! A mesh: the buffers and vertex arrays one drawable object owns.

use vstd::prelude::*;

use crate::binding::BindingState;
use crate::buffer_object::{BufferObject, Target, Usage};
use crate::command::GlCommand;
use crate::element_buffer_object::ElementBufferObject;
use crate::object::{Handle, NullHandle, Object};
use crate::vertex_array_object::VertexArrayObject;
use crate::vertex_buffer_object::VertexBufferObject;

verus! {

/// Owns the vertex buffers, element buffers and vertex arrays that make
/// up one drawable object, so they are released together.
pub struct Mesh {
    vbos: Vec<VertexBufferObject>,
    ebos: Vec<ElementBufferObject>,
    abos: Vec<VertexArrayObject>,
}

impl Mesh {
    /// The vertex buffers the mesh owns, in the order they were added.
    pub closed spec fn spec_vbos(&self) -> Seq<VertexBufferObject> {
        self.vbos@
    }

    /// The element buffers the mesh owns, in the order they were added.
    pub closed spec fn spec_ebos(&self) -> Seq<ElementBufferObject> {
        self.ebos@
    }

    /// The vertex arrays the mesh owns.
    pub closed spec fn spec_abos(&self) -> Seq<VertexArrayObject> {
        self.abos@
    }

    /// A mesh owning nothing yet.
    pub fn new() -> (r: Self)
        ensures
            r.spec_vbos() == Seq::<VertexBufferObject>::empty(),
            r.spec_ebos() == Seq::<ElementBufferObject>::empty(),
            r.spec_abos() == Seq::<VertexArrayObject>::empty(),
    {
        Mesh { vbos: Vec::new(), ebos: Vec::new(), abos: Vec::new() }
    }

    /// Takes ownership of a fresh vertex buffer handle, fills it with a
    /// static copy of `vertices`, and keeps the buffer in the mesh. The
    /// returned commands perform the upload.
    pub fn add_vertex_data<T>(
        &mut self,
        state: &mut BindingState,
        handle: Handle,
        vertices: &[T],
    ) -> (cmds: Vec<GlCommand>)
        requires
            vertices@.len() * vstd::layout::size_of::<T>() <= usize::MAX,
        ensures
            final(self).spec_vbos().len() == old(self).spec_vbos().len() + 1,
            final(self).spec_vbos().last().spec_handle() == handle,
            forall|i: int|
                0 <= i < old(self).spec_vbos().len() ==> final(self).spec_vbos()[i] == old(
                    self,
                ).spec_vbos()[i],
            final(self).spec_ebos() == old(self).spec_ebos(),
            final(self).spec_abos() == old(self).spec_abos(),
            *final(state) == old(state).with_buffer_binding(
                Target::ArrayBuffer,
                NullHandle,
            ),
            cmds@ == seq![
                GlCommand::BindBuffer {
                    target: Target::ArrayBuffer,
                    handle,
                },
                GlCommand::BufferData {
                    target: Target::ArrayBuffer,
                    byte_size: (vertices@.len() * vstd::layout::size_of::<T>()) as usize,
                    usage: Usage::StaticDraw,
                },
                GlCommand::BindBuffer {
                    target: Target::ArrayBuffer,
                    handle: NullHandle,
                },
            ],
    {
        let vbo = VertexBufferObject::new(handle);
        let cmds = vbo.allocate_data(state, vertices, Usage::StaticDraw);
        self.vbos.push(vbo);
        cmds
    }

    /// Takes ownership of a fresh element buffer handle, fills it with a
    /// static copy of `indices`, and keeps the buffer in the mesh. The
    /// returned commands perform the upload.
    pub fn add_element_data<T>(
        &mut self,
        state: &mut BindingState,
        handle: Handle,
        indices: &[T],
    ) -> (cmds: Vec<GlCommand>)
        requires
            indices@.len() * vstd::layout::size_of::<T>() <= usize::MAX,
        ensures
            final(self).spec_ebos().len() == old(self).spec_ebos().len() + 1,
            final(self).spec_ebos().last().spec_handle() == handle,
            forall|i: int|
                0 <= i < old(self).spec_ebos().len() ==> final(self).spec_ebos()[i] == old(
                    self,
                ).spec_ebos()[i],
            final(self).spec_vbos() == old(self).spec_vbos(),
            final(self).spec_abos() == old(self).spec_abos(),
            *final(state) == old(state).with_buffer_binding(
                Target::ElementArrayBuffer,
                NullHandle,
            ),
            cmds@ == seq![
                GlCommand::BindBuffer {
                    target: Target::ElementArrayBuffer,
                    handle,
                },
                GlCommand::BufferData {
                    target: Target::ElementArrayBuffer,
                    byte_size: (indices@.len() * vstd::layout::size_of::<T>()) as usize,
                    usage: Usage::StaticDraw,
                },
                GlCommand::BindBuffer {
                    target: Target::ElementArrayBuffer,
                    handle: NullHandle,
                },
            ],
    {
        let ebo = ElementBufferObject::new(handle);
        let cmds = ebo.allocate_data(state, indices, Usage::StaticDraw);
        self.ebos.push(ebo);
        cmds
    }
}

} // verus!
