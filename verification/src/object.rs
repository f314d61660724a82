//! Driver-side resource handles and the common capability of every
//! resource object: it owns one handle and can be made current.

use vstd::prelude::*;

use crate::binding::BindingState;
use crate::command::GlCommand;

verus! {

/// Opaque identifier of a driver-side resource. The driver assigns these;
/// the library only stores and compares them.
pub type Handle = u32;

/// The reserved handle value that denotes "no resource": an unbound slot,
/// or a resource that was never created.
#[allow(non_upper_case_globals)]
pub const NullHandle: Handle = 0;

/// Capability shared by every resource kind: it owns exactly one driver
/// handle, and binding it makes it current in its slot of the binding
/// state.
pub trait Object: Sized {
    /// The handle this resource owns.
    spec fn spec_handle(&self) -> Handle;

    /// The binding state after this resource is made current.
    spec fn spec_bind(&self, state: BindingState) -> BindingState;

    /// The driver command that makes this resource current.
    spec fn spec_bind_command(&self) -> GlCommand;

    /// Binding a resource twice in a row leaves the binding state exactly
    /// as binding it once does: the second call has no further effect.
    proof fn lemma_bind_idempotent(&self, state: BindingState)
        ensures
            self.spec_bind(self.spec_bind(state)) == self.spec_bind(state),
    ;

    /// Read-only accessor to the owned handle.
    fn handle(&self) -> (h: Handle)
        ensures
            h == self.spec_handle(),
    ;

    /// Makes this resource current in its binding slot and returns the
    /// driver command that performs the change.
    fn bind(&self, state: &mut BindingState) -> (c: GlCommand)
        ensures
            *final(state) == self.spec_bind(*old(state)),
            c == self.spec_bind_command(),
    ;
}

} // verus!
