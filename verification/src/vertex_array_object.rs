//! A vertex array object: a named set of attribute-to-buffer bindings
//! that describes how to read vertex memory.

use vstd::prelude::*;

use crate::binding::BindingState;
use crate::command::GlCommand;
use crate::object::{Handle, NullHandle, Object};
use crate::vertex_attribute::VertexAttribute;

verus! {

/// What one attribute slot of a vertex array records: the attribute's
/// shape, its place in the strided record, and the vertex buffer the
/// association was captured from.
#[derive(Clone, Copy, Debug, PartialEq, Eq, Structural)]
pub struct AttributeBinding {
    /// The attribute's type, component count and normalization.
    pub attribute: VertexAttribute,
    /// Byte offset of the attribute within each record.
    pub offset: i32,
    /// Byte distance between consecutive records.
    pub stride: i32,
    /// The vertex buffer that was bound when the slot was set; the
    /// driver captures the association at call time, not at draw time.
    pub buffer: Handle,
}

/// A vertex array object. Owns one driver handle standing for a set of
/// attribute bindings; the set itself is tracked as the ghost map from
/// attribute slot to recorded binding.
pub struct VertexArrayObject {
    handle: Handle,
    attributes: Ghost<Map<u32, AttributeBinding>>,
}

impl VertexArrayObject {
    /// The attribute bindings recorded so far, by attribute slot.
    pub closed spec fn spec_attributes(&self) -> Map<u32, AttributeBinding> {
        self.attributes@
    }

    /// Wraps the driver handle of a freshly created vertex array, with
    /// no attribute recorded yet. The caller creates the handle with the
    /// driver and must hand each handle to exactly one owner.
    pub fn new(handle: Handle) -> (r: Self)
        ensures
            r.spec_handle() == handle,
            r.spec_attributes() == Map::<u32, AttributeBinding>::empty(),
    {
        VertexArrayObject { handle, attributes: Ghost(Map::empty()) }
    }

    /// Records that attribute slot `location` reads from the currently
    /// bound vertex buffer: each record lies `stride` bytes apart with
    /// this attribute `offset` bytes into it. Enables the slot as a side
    /// effect. A vertex buffer must be bound when this is called, since
    /// the driver captures that association now; registering a slot
    /// again overwrites what the slot held.
    pub fn set_attribute(
        &mut self,
        state: &BindingState,
        location: u32,
        attribute: &VertexAttribute,
        offset: i32,
        stride: i32,
    ) -> (cmds: Vec<GlCommand>)
        requires
            state.bound_array_buffer != NullHandle,
            offset >= 0,
        ensures
            final(self).spec_handle() == old(self).spec_handle(),
            final(self).spec_attributes() == old(self).spec_attributes().insert(
                location,
                AttributeBinding {
                    attribute: *attribute,
                    offset,
                    stride,
                    buffer: state.bound_array_buffer,
                },
            ),
            cmds@ == seq![
                GlCommand::VertexAttribPointer {
                    location,
                    components: attribute.spec_components(),
                    data_type: attribute.spec_data_type(),
                    normalized: attribute.spec_normalized(),
                    stride,
                    offset,
                },
                GlCommand::EnableVertexAttribArray { location },
            ],
    {
        let components = attribute.components();
        let data_type = attribute.data_type();
        let normalized = attribute.is_normalized();

        let mut cmds: Vec<GlCommand> = Vec::new();
        cmds.push(
            GlCommand::VertexAttribPointer {
                location,
                components,
                data_type,
                normalized,
                stride,
                offset,
            },
        );
        cmds.push(GlCommand::EnableVertexAttribArray { location });

        self.attributes = Ghost(
            self.attributes@.insert(
                location,
                AttributeBinding {
                    attribute: *attribute,
                    offset,
                    stride,
                    buffer: state.bound_array_buffer,
                },
            ),
        );

        proof {
            assert(cmds@ =~= seq![
                GlCommand::VertexAttribPointer {
                    location,
                    components: attribute.spec_components(),
                    data_type: attribute.spec_data_type(),
                    normalized: attribute.spec_normalized(),
                    stride,
                    offset,
                },
                GlCommand::EnableVertexAttribArray { location },
            ]);
        }
        cmds
    }

    /// Clears the vertex-array binding slot.
    pub fn unbind(&self, state: &mut BindingState) -> (c: GlCommand)
        ensures
            *final(state) == old(state).with_vertex_array(NullHandle),
            c == (GlCommand::BindVertexArray { handle: NullHandle }),
    {
        state.bind_vertex_array(NullHandle)
    }

    /// Consumes the vertex array, releasing its handle exactly once: the
    /// returned command deletes the driver-side resource.
    pub fn delete(self) -> (c: GlCommand)
        ensures
            c == (GlCommand::DeleteVertexArray { handle: self.spec_handle() }),
    {
        GlCommand::DeleteVertexArray { handle: self.handle }
    }
}

impl Object for VertexArrayObject {
    closed spec fn spec_handle(&self) -> Handle {
        self.handle
    }

    open spec fn spec_bind(&self, state: BindingState) -> BindingState {
        state.with_vertex_array(self.spec_handle())
    }

    open spec fn spec_bind_command(&self) -> GlCommand {
        GlCommand::BindVertexArray { handle: self.spec_handle() }
    }

    proof fn lemma_bind_idempotent(&self, state: BindingState) {
    }

    fn handle(&self) -> (h: Handle) {
        self.handle
    }

    fn bind(&self, state: &mut BindingState) -> (c: GlCommand) {
        state.bind_vertex_array(self.handle)
    }
}

/// Registering attribute slots is cumulative and unordered across
/// distinct slots: two registrations at different locations may happen
/// in either order and record the same set of bindings.
pub proof fn lemma_set_attribute_unordered(
    attributes: Map<u32, AttributeBinding>,
    location_a: u32,
    binding_a: AttributeBinding,
    location_b: u32,
    binding_b: AttributeBinding,
)
    requires
        location_a != location_b,
    ensures
        attributes.insert(location_a, binding_a).insert(location_b, binding_b)
            == attributes.insert(location_b, binding_b).insert(location_a, binding_a),
{
    assert(attributes.insert(location_a, binding_a).insert(location_b, binding_b)
        =~= attributes.insert(location_b, binding_b).insert(location_a, binding_a));
}

/// For one slot, the last registration wins: registering a slot twice
/// records exactly what the second registration says.
pub proof fn lemma_set_attribute_last_wins(
    attributes: Map<u32, AttributeBinding>,
    location: u32,
    first: AttributeBinding,
    second: AttributeBinding,
)
    ensures
        attributes.insert(location, first).insert(location, second)
            == attributes.insert(location, second),
{
    assert(attributes.insert(location, first).insert(location, second)
        =~= attributes.insert(location, second));
}

} // verus!
