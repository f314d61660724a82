//! A buffer object holding per-vertex data, bound through the
//! vertex-buffer target.

use vstd::prelude::*;

use crate::binding::BindingState;
use crate::buffer_object::{BufferObject, Target};
use crate::command::GlCommand;
use crate::object::{Handle, Object};

verus! {

/// A GPU buffer used as vertex storage. Owns exactly one driver handle.
#[derive(Debug)]
pub struct VertexBufferObject {
    handle: Handle,
}

impl VertexBufferObject {
    /// Wraps the driver handle of a freshly created buffer. The caller
    /// creates the handle with the driver and must hand each handle to
    /// exactly one owner.
    pub fn new(handle: Handle) -> (r: Self)
        ensures
            r.spec_handle() == handle,
    {
        VertexBufferObject { handle }
    }

    /// Consumes the buffer, releasing its handle exactly once: the
    /// returned command deletes the driver-side resource.
    pub fn delete(self) -> (c: GlCommand)
        ensures
            c == (GlCommand::DeleteBuffer { handle: self.spec_handle() }),
    {
        GlCommand::DeleteBuffer { handle: self.handle }
    }
}

impl Object for VertexBufferObject {
    closed spec fn spec_handle(&self) -> Handle {
        self.handle
    }

    open spec fn spec_bind(&self, state: BindingState) -> BindingState {
        state.with_buffer_binding(Target::ArrayBuffer, self.spec_handle())
    }

    open spec fn spec_bind_command(&self) -> GlCommand {
        GlCommand::BindBuffer { target: Target::ArrayBuffer, handle: self.spec_handle() }
    }

    proof fn lemma_bind_idempotent(&self, state: BindingState) {
    }

    fn handle(&self) -> (h: Handle) {
        self.handle
    }

    fn bind(&self, state: &mut BindingState) -> (c: GlCommand) {
        state.bind_buffer(Target::ArrayBuffer, self.handle)
    }
}

impl BufferObject for VertexBufferObject {
    open spec fn spec_target(&self) -> Target {
        Target::ArrayBuffer
    }

    proof fn lemma_bind_is_buffer_bind(&self, state: BindingState) {
    }

    fn target(&self) -> (t: Target) {
        Target::ArrayBuffer
    }
}

} // verus!
