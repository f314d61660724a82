//! The rendering context's binding state, made explicit.
//!
//! The underlying API keeps one implicit "current context": the buffer
//! bound to each target, the current vertex array, and the active
//! program. Every operation that depends on or changes that state takes a
//! [`BindingState`] so the dependency is visible in its contract.

use vstd::prelude::*;

use crate::buffer_object::Target;
use crate::command::GlCommand;
use crate::object::{Handle, NullHandle};

verus! {

/// The binding slots of the current rendering context. A slot holding
/// [`NullHandle`] is unbound.
#[derive(Clone, Copy, Debug, PartialEq, Eq, Structural)]
pub struct BindingState {
    /// Buffer currently bound to the vertex-buffer target.
    pub bound_array_buffer: Handle,
    /// Buffer currently bound to the index-buffer target.
    pub bound_element_array_buffer: Handle,
    /// Currently bound vertex array object.
    pub bound_vertex_array: Handle,
    /// Currently active program pipeline.
    pub active_program: Handle,
}

impl BindingState {
    /// The handle bound to `target`.
    pub open spec fn buffer_binding(self, target: Target) -> Handle {
        match target {
            Target::ArrayBuffer => self.bound_array_buffer,
            Target::ElementArrayBuffer => self.bound_element_array_buffer,
        }
    }

    /// This state with `handle` bound to `target`.
    pub open spec fn with_buffer_binding(self, target: Target, handle: Handle) -> BindingState {
        match target {
            Target::ArrayBuffer => BindingState { bound_array_buffer: handle, ..self },
            Target::ElementArrayBuffer => BindingState {
                bound_element_array_buffer: handle,
                ..self
            },
        }
    }

    /// This state with `handle` as the current vertex array.
    pub open spec fn with_vertex_array(self, handle: Handle) -> BindingState {
        BindingState { bound_vertex_array: handle, ..self }
    }

    /// This state with `handle` as the active program.
    pub open spec fn with_program(self, handle: Handle) -> BindingState {
        BindingState { active_program: handle, ..self }
    }

    /// A fresh context: nothing bound, no program active.
    pub fn new() -> (state: BindingState)
        ensures
            state.bound_array_buffer == NullHandle,
            state.bound_element_array_buffer == NullHandle,
            state.bound_vertex_array == NullHandle,
            state.active_program == NullHandle,
    {
        BindingState {
            bound_array_buffer: NullHandle,
            bound_element_array_buffer: NullHandle,
            bound_vertex_array: NullHandle,
            active_program: NullHandle,
        }
    }

    /// Bind `handle` to `target`, returning the command that performs the
    /// change.
    pub fn bind_buffer(&mut self, target: Target, handle: Handle) -> (c: GlCommand)
        ensures
            *final(self) == old(self).with_buffer_binding(target, handle),
            c == (GlCommand::BindBuffer { target, handle }),
    {
        match target {
            Target::ArrayBuffer => {
                self.bound_array_buffer = handle;
            },
            Target::ElementArrayBuffer => {
                self.bound_element_array_buffer = handle;
            },
        }
        GlCommand::BindBuffer { target, handle }
    }

    /// Make `handle` the current vertex array.
    pub fn bind_vertex_array(&mut self, handle: Handle) -> (c: GlCommand)
        ensures
            *final(self) == old(self).with_vertex_array(handle),
            c == (GlCommand::BindVertexArray { handle }),
    {
        self.bound_vertex_array = handle;
        GlCommand::BindVertexArray { handle }
    }

    /// Make `handle` the active program.
    pub fn use_program(&mut self, handle: Handle) -> (c: GlCommand)
        ensures
            *final(self) == old(self).with_program(handle),
            c == (GlCommand::UseProgram { handle }),
    {
        self.active_program = handle;
        GlCommand::UseProgram { handle }
    }
}

/// Binding a buffer to a target twice in a row is the same as binding it
/// once; more generally, the later of two binds to one target wins.
pub proof fn lemma_buffer_bind_overwrites(
    state: BindingState,
    target: Target,
    first: Handle,
    second: Handle,
)
    ensures
        state.with_buffer_binding(target, first).with_buffer_binding(target, second)
            == state.with_buffer_binding(target, second),
{
}

/// Binding a vertex array twice in a row is the same as binding it once.
pub proof fn lemma_vertex_array_bind_overwrites(state: BindingState, first: Handle, second: Handle)
    ensures
        state.with_vertex_array(first).with_vertex_array(second)
            == state.with_vertex_array(second),
{
}

/// Activating a program twice in a row is the same as activating it once.
pub proof fn lemma_program_bind_overwrites(state: BindingState, first: Handle, second: Handle)
    ensures
        state.with_program(first).with_program(second) == state.with_program(second),
{
}

} // verus!
