//! Building the shader program: the calls that compile a shader and link
//! the program. Whether the driver accepted them is judged by the session
//! that runs the calls.

use vstd::prelude::*;
use crate::error::Fault;
use crate::gl::{GlCall, GlReply, ShaderKind, COMPILE_STATUS, LINK_STATUS};
use crate::session::{lemma_failure_is_final, text_or, SessionView};

verus! {

/// The calls that compile the shader of `kind`: create the object, hand it
/// its source, compile, and ask whether that succeeded.
pub open spec fn compile_plan(kind: ShaderKind) -> Seq<GlCall> {
    seq![
        GlCall::CreateShader { kind },
        GlCall::ShaderSource { shader: kind },
        GlCall::CompileShader { shader: kind },
        GlCall::GetShaderParameter { shader: kind, pname: COMPILE_STATUS },
    ]
}

/// The calls that link the two shaders into the program: create the object,
/// attach both, link, and ask whether that succeeded.
pub open spec fn link_plan(vert_shader: ShaderKind, frag_shader: ShaderKind) -> Seq<GlCall> {
    seq![
        GlCall::CreateProgram,
        GlCall::AttachShader { shader: vert_shader },
        GlCall::AttachShader { shader: frag_shader },
        GlCall::LinkProgram,
        GlCall::GetProgramParameter { pname: LINK_STATUS },
    ]
}

/// Plans the compilation of the shader of `kind`.
pub fn compile_shader(kind: ShaderKind) -> (plan: Vec<GlCall>)
    ensures
        plan@ == compile_plan(kind),
{
    vec![
        GlCall::CreateShader { kind },
        GlCall::ShaderSource { shader: kind },
        GlCall::CompileShader { shader: kind },
        GlCall::GetShaderParameter { shader: kind, pname: COMPILE_STATUS },
    ]
}

/// Plans the linking of the program from its two shaders.
pub fn link_program(vert_shader: ShaderKind, frag_shader: ShaderKind) -> (plan: Vec<GlCall>)
    ensures
        plan@ == link_plan(vert_shader, frag_shader),
{
    vec![
        GlCall::CreateProgram,
        GlCall::AttachShader { shader: vert_shader },
        GlCall::AttachShader { shader: frag_shader },
        GlCall::LinkProgram,
        GlCall::GetProgramParameter { pname: LINK_STATUS },
    ]
}

/// A shader that the driver rejects ends start-up. Whatever the session is
/// running: once the compile status comes back as anything but `true`, the
/// session asks for the shader's log, fails with the log's text (or with a
/// fixed text where there is no log), and asks for no further call whatever
/// is reported later, so that no program is created or linked. The message
/// is empty only where the driver's log is the empty text.
pub proof fn lemma_rejected_shader_ends_startup(
    session: SessionView,
    shader: ShaderKind,
    status: GlReply,
    log: GlReply,
    later: Seq<GlReply>,
)
    requires
        session.pending() == Some(GlCall::GetShaderParameter { shader, pname: COMPILE_STATUS }),
        status != GlReply::Flag(Some(true)),
    ensures
        session.step(status).pending() == Some(GlCall::GetShaderInfoLog { shader }),
        session.step(status).step(log).failure == Some(
            Fault::ShaderCompile {
                kind: shader,
                message: text_or(log, "Unknown error creating shader"@),
            },
        ),
        !(log matches GlReply::Text(Some(text)) && text@.len() == 0) ==> text_or(
            log,
            "Unknown error creating shader"@,
        ).len() > 0,
        session.step(status).step(log).pending() is None,
        session.step(status).step(log).run(later) == session.step(status).step(log),
{
    reveal_strlit("Unknown error creating shader");
    lemma_failure_is_final(session.step(status).step(log), later);
}

/// A program that the driver refuses to link ends start-up in the same way,
/// with the linker's text.
pub proof fn lemma_rejected_program_ends_startup(
    session: SessionView,
    status: GlReply,
    log: GlReply,
    later: Seq<GlReply>,
)
    requires
        session.pending() == Some(GlCall::GetProgramParameter { pname: LINK_STATUS }),
        status != GlReply::Flag(Some(true)),
    ensures
        session.step(status).pending() == Some(GlCall::GetProgramInfoLog),
        session.step(status).step(log).failure == Some(
            Fault::ProgramLink {
                message: text_or(log, "Unknown error creating program object"@),
            },
        ),
        session.step(status).step(log).pending() is None,
        session.step(status).step(log).run(later) == session.step(status).step(log),
{
    lemma_failure_is_final(session.step(status).step(log), later);
}

} // verus!
