//! Shader compilation and program linking: the decisions around the
//! driver's compile/link protocol, and the diagnostics it returns.
//!
//! The driver itself compiles and links; unverified glue submits source
//! text, polls the status flags, and reads the info logs. Everything
//! decided from those answers — which value the caller receives, which
//! commands attach and detach the shaders, and how the log buffer is
//! sized — is verified here.

use vstd::prelude::*;
use vstd::string::StringExecFns;

use crate::binding::BindingState;
use crate::command::GlCommand;
use crate::object::Handle;

verus! {

/// An attribute or uniform location inside a linked program. The driver
/// reports a negative value for a name that does not exist.
pub type Location = i32;

/// A compiled single-stage shader unit. Owns one driver handle and is
/// immutable after construction.
#[derive(Debug)]
pub struct Shader {
    id: Handle,
}

impl Shader {
    /// The handle this shader owns.
    pub closed spec fn spec_id(&self) -> Handle {
        self.id
    }

    /// The outcome of compiling shader `id`: the compiled shader exactly
    /// when the driver reported success, and otherwise the driver's full
    /// info log as the error payload. The caller submits the source text
    /// to the driver and hands in the status and log it reported.
    pub fn from_source(id: Handle, compile_success: bool, info_log: String) -> (r: Result<
        Shader,
        String,
    >)
        ensures
            r is Ok <==> compile_success,
            compile_success ==> (r matches Ok(s) && s.spec_id() == id),
            !compile_success ==> (r matches Err(m) && m@ == info_log@),
    {
        if compile_success {
            Ok(Shader { id })
        } else {
            Err(info_log)
        }
    }

    /// Read-only accessor to the owned handle.
    pub fn id(&self) -> (id: Handle)
        ensures
            id == self.spec_id(),
    {
        self.id
    }

    /// Consumes the shader, releasing its handle exactly once: the
    /// returned command deletes the driver-side resource.
    pub fn delete(self) -> (c: GlCommand)
        ensures
            c == (GlCommand::DeleteShader { handle: self.spec_id() }),
    {
        GlCommand::DeleteShader { handle: self.id }
    }
}

/// A buffer of exactly `len` spaces, used to receive an info log whose
/// length was queried first: the driver overwrites the spaces, so the
/// text read back has exactly the queried length.
pub fn create_whitespace_string_with_len(len: usize) -> (s: String)
    ensures
        s@.len() == len,
        forall|i: int| 0 <= i < len ==> s@[i] == ' ',
{
    let mut s = String::new();
    let mut filled: usize = 0;
    proof {
        reveal_strlit(" ");
    }
    while filled < len
        invariant
            filled <= len,
            s@.len() == filled,
            forall|i: int| 0 <= i < filled ==> s@[i] == ' ',
            " "@.len() == 1,
            " "@[0] == ' ',
        decreases len - filled,
    {
        s.append(" ");
        filled = filled + 1;
    }
    s
}

/// A linked, executable pipeline object built from compiled shaders.
/// Owns one driver handle and is immutable after construction.
#[derive(Debug)]
pub struct Program {
    id: Handle,
}

impl Program {
    /// The handle this program owns.
    pub closed spec fn spec_id(&self) -> Handle {
        self.id
    }

    /// The commands that prepare linking program `program_id`: attach
    /// every shader, in order, then link.
    pub fn attach_commands(program_id: Handle, shaders: &Vec<Shader>) -> (cmds: Vec<GlCommand>)
        ensures
            cmds@.len() == shaders@.len() + 1,
            forall|i: int|
                0 <= i < shaders@.len() ==> cmds@[i] == (GlCommand::AttachShader {
                    program: program_id,
                    shader: shaders@[i].spec_id(),
                }),
            cmds@[shaders@.len() as int] == (GlCommand::LinkProgram { program: program_id }),
    {
        let mut cmds: Vec<GlCommand> = Vec::new();
        let mut idx: usize = 0;
        while idx < shaders.len()
            invariant
                idx <= shaders@.len(),
                cmds@.len() == idx,
                forall|i: int|
                    0 <= i < idx ==> cmds@[i] == (GlCommand::AttachShader {
                        program: program_id,
                        shader: shaders@[i].spec_id(),
                    }),
            decreases shaders@.len() - idx,
        {
            let shader_id = shaders[idx].id();
            cmds.push(GlCommand::AttachShader { program: program_id, shader: shader_id });
            idx = idx + 1;
        }
        cmds.push(GlCommand::LinkProgram { program: program_id });
        cmds
    }

    /// The outcome of linking program `program_id`: the linked program
    /// exactly when the driver reported success, and otherwise the
    /// driver's full info log as the error payload. The caller attaches
    /// and links through [`Program::attach_commands`] and hands in the
    /// status and log the driver reported.
    pub fn from_shaders(program_id: Handle, link_success: bool, info_log: String) -> (r: Result<
        Program,
        String,
    >)
        ensures
            r is Ok <==> link_success,
            link_success ==> (r matches Ok(p) && p.spec_id() == program_id),
            !link_success ==> (r matches Err(m) && m@ == info_log@),
    {
        if link_success {
            Ok(Program { id: program_id })
        } else {
            Err(info_log)
        }
    }

    /// The commands that detach every shader from this program after a
    /// successful link, leaving the shaders independently destructible.
    pub fn detach_commands(&self, shaders: &Vec<Shader>) -> (cmds: Vec<GlCommand>)
        ensures
            cmds@.len() == shaders@.len(),
            forall|i: int|
                0 <= i < shaders@.len() ==> cmds@[i] == (GlCommand::DetachShader {
                    program: self.spec_id(),
                    shader: shaders@[i].spec_id(),
                }),
    {
        let mut cmds: Vec<GlCommand> = Vec::new();
        let mut idx: usize = 0;
        while idx < shaders.len()
            invariant
                idx <= shaders@.len(),
                cmds@.len() == idx,
                forall|i: int|
                    0 <= i < idx ==> cmds@[i] == (GlCommand::DetachShader {
                        program: self.spec_id(),
                        shader: shaders@[i].spec_id(),
                    }),
            decreases shaders@.len() - idx,
        {
            let shader_id = shaders[idx].id();
            cmds.push(GlCommand::DetachShader { program: self.id, shader: shader_id });
            idx = idx + 1;
        }
        cmds
    }

    /// Makes this program the active pipeline for subsequent draws.
    pub fn set_used(&self, state: &mut BindingState) -> (c: GlCommand)
        ensures
            *final(state) == old(state).with_program(self.spec_id()),
            c == (GlCommand::UseProgram { handle: self.spec_id() }),
    {
        state.use_program(self.id)
    }

    /// Read-only accessor to the owned handle.
    pub fn id(&self) -> (id: Handle)
        ensures
            id == self.spec_id(),
    {
        self.id
    }

    /// Consumes the program, releasing its handle exactly once: the
    /// returned command deletes the driver-side resource.
    pub fn delete(self) -> (c: GlCommand)
        ensures
            c == (GlCommand::DeleteProgram { handle: self.spec_id() }),
    {
        GlCommand::DeleteProgram { handle: self.id }
    }
}

} // verus!
