//! A buffer object holding vertex indices, bound through the
//! element-buffer target.

use vstd::prelude::*;

use crate::binding::BindingState;
use crate::buffer_object::{BufferObject, Target};
use crate::command::GlCommand;
use crate::data::Type;
use crate::object::{Handle, Object};

verus! {

/// The scalar kinds the driver accepts as vertex indices: the unsigned
/// integer types.
pub open spec fn spec_supported_index_type(t: Type) -> bool {
    t is UByte || t is UShort || t is UInt
}

/// A GPU buffer used as index storage. Owns exactly one driver handle.
#[derive(Debug)]
pub struct ElementBufferObject {
    handle: Handle,
}

impl ElementBufferObject {
    /// Whether `value` may serve as the index type of an indexed draw.
    pub fn is_supported_type(value: Type) -> (r: bool)
        ensures
            r == spec_supported_index_type(value),
    {
        matches!(value, Type::UByte | Type::UShort | Type::UInt)
    }

    /// Wraps the driver handle of a freshly created buffer. The caller
    /// creates the handle with the driver and must hand each handle to
    /// exactly one owner.
    pub fn new(handle: Handle) -> (r: Self)
        ensures
            r.spec_handle() == handle,
    {
        ElementBufferObject { handle }
    }

    /// Consumes the buffer, releasing its handle exactly once: the
    /// returned command deletes the driver-side resource.
    pub fn delete(self) -> (c: GlCommand)
        ensures
            c == (GlCommand::DeleteBuffer { handle: self.spec_handle() }),
    {
        GlCommand::DeleteBuffer { handle: self.handle }
    }
}

impl Object for ElementBufferObject {
    closed spec fn spec_handle(&self) -> Handle {
        self.handle
    }

    open spec fn spec_bind(&self, state: BindingState) -> BindingState {
        state.with_buffer_binding(Target::ElementArrayBuffer, self.spec_handle())
    }

    open spec fn spec_bind_command(&self) -> GlCommand {
        GlCommand::BindBuffer { target: Target::ElementArrayBuffer, handle: self.spec_handle() }
    }

    proof fn lemma_bind_idempotent(&self, state: BindingState) {
    }

    fn handle(&self) -> (h: Handle) {
        self.handle
    }

    fn bind(&self, state: &mut BindingState) -> (c: GlCommand) {
        state.bind_buffer(Target::ElementArrayBuffer, self.handle)
    }
}

impl BufferObject for ElementBufferObject {
    open spec fn spec_target(&self) -> Target {
        Target::ElementArrayBuffer
    }

    proof fn lemma_bind_is_buffer_bind(&self, state: BindingState) {
    }

    fn target(&self) -> (t: Target) {
        Target::ElementArrayBuffer
    }
}

} // verus!
