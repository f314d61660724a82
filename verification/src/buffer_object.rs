//! Generic GPU memory buffers: binding targets, usage hints, and the
//! shared allocate / reserve / update protocol.

use vstd::prelude::*;

use crate::binding::BindingState;
use crate::command::GlCommand;
use crate::object::{NullHandle, Object};

verus! {

/// The binding point a buffer is used through.
#[derive(Clone, Copy, Debug, PartialEq, Eq, Structural)]
pub enum Target {
    /// Vertex buffer binding point.
    ArrayBuffer,
    /// Element (index) buffer binding point.
    ElementArrayBuffer,
}

/// Advisory access pattern for a buffer's backing store. Passed through
/// to the driver unchanged.
#[derive(Clone, Copy, Debug, PartialEq, Eq, Structural)]
pub enum Usage {
    StaticDraw,
    StaticRead,
    StaticCopy,
    DynamicDraw,
    DynamicRead,
    DynamicCopy,
    StreamDraw,
    StreamRead,
    StreamCopy,
}

/// Operations shared by every buffer kind.
///
/// Each data operation follows the driver's binding protocol: bind the
/// buffer to its target, perform the upload, then clear the target's
/// binding. The returned commands list those three driver calls in
/// order, and the binding state afterwards has the target unbound.
pub trait BufferObject: Object {
    /// The binding target this buffer kind uses.
    spec fn spec_target(&self) -> Target;

    /// Binding this buffer sets its target's slot to its handle, and
    /// nothing else.
    proof fn lemma_bind_is_buffer_bind(&self, state: BindingState)
        ensures
            self.spec_bind(state) == state.with_buffer_binding(
                self.spec_target(),
                self.spec_handle(),
            ),
            self.spec_bind_command() == (GlCommand::BindBuffer {
                target: self.spec_target(),
                handle: self.spec_handle(),
            }),
    ;

    /// The binding target this buffer kind uses.
    fn target(&self) -> (t: Target)
        ensures
            t == self.spec_target(),
    ;

    /// Clears this buffer's target binding slot.
    fn unbind(&self, state: &mut BindingState) -> (c: GlCommand)
        ensures
            *final(state) == old(state).with_buffer_binding(self.spec_target(), NullHandle),
            c == (GlCommand::BindBuffer { target: self.spec_target(), handle: NullHandle }),
    {
        let t = self.target();
        state.bind_buffer(t, NullHandle)
    }

    /// Replaces this buffer's entire backing store with a copy of `data`,
    /// sized in bytes as the element count times the element size, tagged
    /// with `usage`.
    fn allocate_data<T>(&self, state: &mut BindingState, data: &[T], usage: Usage) -> (cmds: Vec<
        GlCommand,
    >)
        requires
            data@.len() * vstd::layout::size_of::<T>() <= usize::MAX,
        ensures
            *final(state) == old(state).with_buffer_binding(self.spec_target(), NullHandle),
            cmds@ == seq![
                self.spec_bind_command(),
                GlCommand::BufferData {
                    target: self.spec_target(),
                    byte_size: (data@.len() * vstd::layout::size_of::<T>()) as usize,
                    usage,
                },
                GlCommand::BindBuffer { target: self.spec_target(), handle: NullHandle },
            ],
    {
        let mut cmds: Vec<GlCommand> = Vec::new();
        let c = self.bind(state);
        proof {
            self.lemma_bind_is_buffer_bind(*old(state));
        }
        cmds.push(c);
        let byte_size: usize = data.len() * core::mem::size_of::<T>();
        let t = self.target();
        cmds.push(GlCommand::BufferData { target: t, byte_size, usage });
        let c = self.unbind(state);
        cmds.push(c);
        proof {
            assert(cmds@ =~= seq![
                self.spec_bind_command(),
                GlCommand::BufferData {
                    target: self.spec_target(),
                    byte_size: (data@.len() * vstd::layout::size_of::<T>()) as usize,
                    usage,
                },
                GlCommand::BindBuffer { target: self.spec_target(), handle: NullHandle },
            ]);
        }
        cmds
    }

    /// Reserves room for `count` elements of `T` without initializing the
    /// contents; used when the buffer is filled incrementally.
    fn reserve_data<T>(&self, state: &mut BindingState, count: usize, usage: Usage) -> (cmds: Vec<
        GlCommand,
    >)
        requires
            count * vstd::layout::size_of::<T>() <= usize::MAX,
        ensures
            *final(state) == old(state).with_buffer_binding(self.spec_target(), NullHandle),
            cmds@ == seq![
                self.spec_bind_command(),
                GlCommand::BufferData {
                    target: self.spec_target(),
                    byte_size: (count * vstd::layout::size_of::<T>()) as usize,
                    usage,
                },
                GlCommand::BindBuffer { target: self.spec_target(), handle: NullHandle },
            ],
    {
        let mut cmds: Vec<GlCommand> = Vec::new();
        let c = self.bind(state);
        proof {
            self.lemma_bind_is_buffer_bind(*old(state));
        }
        cmds.push(c);
        let byte_size: usize = count * core::mem::size_of::<T>();
        let t = self.target();
        cmds.push(GlCommand::BufferData { target: t, byte_size, usage });
        let c = self.unbind(state);
        cmds.push(c);
        proof {
            assert(cmds@ =~= seq![
                self.spec_bind_command(),
                GlCommand::BufferData {
                    target: self.spec_target(),
                    byte_size: (count * vstd::layout::size_of::<T>()) as usize,
                    usage,
                },
                GlCommand::BindBuffer { target: self.spec_target(), handle: NullHandle },
            ]);
        }
        cmds
    }

    /// Overwrites the byte range starting at `byte_offset` with a copy of
    /// `data`. The caller must keep the range inside the size allocated
    /// earlier; an out-of-range write is a driver-reported error, not a
    /// local failure.
    fn update_data<T>(&self, state: &mut BindingState, data: &[T], byte_offset: usize) -> (cmds:
        Vec<GlCommand>)
        requires
            data@.len() * vstd::layout::size_of::<T>() <= usize::MAX,
        ensures
            *final(state) == old(state).with_buffer_binding(self.spec_target(), NullHandle),
            cmds@ == seq![
                self.spec_bind_command(),
                GlCommand::BufferSubData {
                    target: self.spec_target(),
                    byte_offset,
                    byte_size: (data@.len() * vstd::layout::size_of::<T>()) as usize,
                },
                GlCommand::BindBuffer { target: self.spec_target(), handle: NullHandle },
            ],
    {
        let mut cmds: Vec<GlCommand> = Vec::new();
        let c = self.bind(state);
        proof {
            self.lemma_bind_is_buffer_bind(*old(state));
        }
        cmds.push(c);
        let byte_size: usize = data.len() * core::mem::size_of::<T>();
        let t = self.target();
        cmds.push(GlCommand::BufferSubData { target: t, byte_offset, byte_size });
        let c = self.unbind(state);
        cmds.push(c);
        proof {
            assert(cmds@ =~= seq![
                self.spec_bind_command(),
                GlCommand::BufferSubData {
                    target: self.spec_target(),
                    byte_offset,
                    byte_size: (data@.len() * vstd::layout::size_of::<T>()) as usize,
                },
                GlCommand::BindBuffer { target: self.spec_target(), handle: NullHandle },
            ]);
        }
        cmds
    }
}

} // verus!
