//! The step machine that runs the triangle pipeline.
//!
//! The machine never touches the driver itself. It hands out batches of
//! graphics calls; the caller performs each batch in order and feeds back the
//! driver's reply to the batch's last, decisive call. The machine decides
//! what the reply means: the next batch, success once the draw call is out,
//! or exactly which error message the failing step owes.

use vstd::prelude::*;
use vstd::pervasive::unreached;

use crate::gl::{GlCall, GlEvent, ShaderKind, draw_count, vertex_data};

verus! {

// ---------------------------------------------------------------------------
// Error messages
// ---------------------------------------------------------------------------

/// Message when the driver refuses to create the buffer object.
pub open spec fn buffer_error_text() -> Seq<char> {
    "Failed to Create Buffer"@
}

/// Message when the driver refuses to create a shader object.
pub open spec fn shader_create_error_text() -> Seq<char> {
    "Failed to create Shader"@
}

/// Message when the driver refuses to create the program object.
pub open spec fn program_create_error_text() -> Seq<char> {
    "Could not Create shader program"@
}

/// Fallback message when a shader fails to compile and the driver supplies
/// no usable log.
pub open spec fn compile_fallback_text() -> Seq<char> {
    "Unknown error creating shader"@
}

/// Fallback message when the program fails to link and the driver supplies
/// no usable log.
pub open spec fn link_fallback_text() -> Seq<char> {
    "Could not Link Shader, unknown error"@
}

/// The view of an optional driver log.
pub open spec fn log_view(log: Option<String>) -> Option<Seq<char>> {
    match log {
        Some(s) => Some(s@),
        None => None,
    }
}

/// The error a failed compile reports: the driver's log when non-empty, else
/// the fallback text.
pub open spec fn compile_fail_message(log: Option<Seq<char>>) -> Seq<char> {
    match log {
        Some(s) => if s.len() > 0 { s } else { compile_fallback_text() },
        None => compile_fallback_text(),
    }
}

/// The error a failed link reports: the driver's log when non-empty, else
/// the fallback text.
pub open spec fn link_fail_message(log: Option<Seq<char>>) -> Seq<char> {
    match log {
        Some(s) => if s.len() > 0 { s } else { link_fallback_text() },
        None => link_fallback_text(),
    }
}

// ---------------------------------------------------------------------------
// The machine's states and outcomes
// ---------------------------------------------------------------------------

/// Where in the pipeline the machine stands: each non-terminal state waits
/// for the driver's reply to one decisive call.
#[derive(Clone, Copy, PartialEq, Eq, Structural, Debug)]
pub enum Step {
    /// Waiting to hear whether the outside collaborator obtained a context.
    Begin,
    /// Waiting for the buffer object's handle.
    AwaitBuffer,
    /// Waiting for the given stage's shader object handle.
    AwaitShader(ShaderKind),
    /// Waiting for the given stage's compile status.
    AwaitCompile(ShaderKind),
    /// Waiting for the given stage's compile log, after a failed compile.
    AwaitCompileLog(ShaderKind),
    /// Waiting for the program object's handle.
    AwaitProgram,
    /// Waiting for the program's link status.
    AwaitLink,
    /// Waiting for the program's link log, after a failed link.
    AwaitLinkLog,
    /// Finished or failed; the machine makes no further calls.
    Halted,
}

/// What the machine hands back for one driver reply.
#[derive(Clone, PartialEq, Eq, Debug)]
pub enum Outcome {
    /// Perform these calls in order and reply to the last one.
    Query(Vec<GlCall>),
    /// Perform these trailing calls in order; the triangle is then drawn and
    /// no reply is owed.
    Finished(Vec<GlCall>),
    /// Stop: the pipeline failed with this message, and no further call is
    /// made.
    Failed(String),
}

/// A transition's specification: the state the machine moves to, the calls
/// it emits, and whether the run goes on, finished, or failed.
pub enum RunStatus {
    Running,
    Finished,
    Failed(Seq<char>),
}

/// One specified transition.
pub struct Transition {
    pub step: Step,
    pub calls: Seq<GlCall>,
    pub status: RunStatus,
}

// ---------------------------------------------------------------------------
// The batches of calls, one per affirmative reply
// ---------------------------------------------------------------------------

/// After a context is obtained: create the buffer.
pub open spec fn calls_on_context_ok() -> Seq<GlCall> {
    seq![GlCall::CreateBuffer]
}

/// After the buffer exists: bind it, upload the vertices, and start on the
/// vertex shader.
pub open spec fn calls_on_buffer_ok() -> Seq<GlCall> {
    seq![
        GlCall::BindArrayBuffer,
        GlCall::BufferData,
        GlCall::CreateShader(ShaderKind::Vertex),
    ]
}

/// After a shader object exists: load its source, compile it, and ask how
/// the compile went.
pub open spec fn calls_on_shader_ok(kind: ShaderKind) -> Seq<GlCall> {
    seq![
        GlCall::ShaderSource(kind),
        GlCall::CompileShader(kind),
        GlCall::GetCompileStatus(kind),
    ]
}

/// After a stage compiled: start on the fragment shader, or, once both
/// stages stand, create the program.
pub open spec fn calls_on_compile_ok(kind: ShaderKind) -> Seq<GlCall> {
    match kind {
        ShaderKind::Vertex => seq![GlCall::CreateShader(ShaderKind::Fragment)],
        ShaderKind::Fragment => seq![GlCall::CreateProgram],
    }
}

/// After a stage failed to compile: fetch its log.
pub open spec fn calls_on_compile_failed(kind: ShaderKind) -> Seq<GlCall> {
    seq![GlCall::GetShaderInfoLog(kind)]
}

/// After the program exists: attach both shaders, link, and ask how the
/// link went.
pub open spec fn calls_on_program_ok() -> Seq<GlCall> {
    seq![
        GlCall::AttachShader(ShaderKind::Vertex),
        GlCall::AttachShader(ShaderKind::Fragment),
        GlCall::LinkProgram,
        GlCall::GetLinkStatus,
    ]
}

/// After the link failed: fetch the program's log.
pub open spec fn calls_on_link_failed() -> Seq<GlCall> {
    seq![GlCall::GetProgramInfoLog]
}

/// After the program linked: activate it, lay out attribute slot 0 as three
/// tightly packed floats per vertex, clear to opaque black, and issue the
/// one draw call.
pub open spec fn calls_on_link_ok() -> Seq<GlCall> {
    seq![
        GlCall::UseProgram,
        (GlCall::VertexAttribPointer { index: 0, size: 3, normalized: false, stride: 0, offset: 0 }),
        GlCall::EnableVertexAttribArray(0),
        (GlCall::ClearColor {
            red_bits: 0x0000_0000,
            green_bits: 0x0000_0000,
            blue_bits: 0x0000_0000,
            alpha_bits: 0x3F80_0000,
        }),
        GlCall::Clear,
        (GlCall::DrawArrays { first: 0, count: draw_count() as i32 }),
    ]
}

// ---------------------------------------------------------------------------
// The machine itself
// ---------------------------------------------------------------------------

/// Which replies a state can take: each waiting state takes exactly the
/// reply shape of its decisive call, and a halted machine takes none.
pub open spec fn expects(s: Step, ev: GlEvent) -> bool {
    match s {
        Step::Begin => ev is Context,
        Step::AwaitBuffer | Step::AwaitShader(_) | Step::AwaitProgram => ev is Handle,
        Step::AwaitCompile(_) | Step::AwaitLink => ev is Status,
        Step::AwaitCompileLog(_) | Step::AwaitLinkLog => ev is Log,
        Step::Halted => false,
    }
}

/// The whole machine: what one driver reply does to each state. Outside
/// `expects` the machine is never driven; there this function idles.
pub open spec fn next_spec(s: Step, ev: GlEvent) -> Transition {
    match (s, ev) {
        (Step::Begin, GlEvent::Context(None)) => Transition {
            step: Step::AwaitBuffer,
            calls: calls_on_context_ok(),
            status: RunStatus::Running,
        },
        (Step::Begin, GlEvent::Context(Some(m))) => Transition {
            step: Step::Halted,
            calls: seq![],
            status: RunStatus::Failed(m@),
        },
        (Step::AwaitBuffer, GlEvent::Handle(true)) => Transition {
            step: Step::AwaitShader(ShaderKind::Vertex),
            calls: calls_on_buffer_ok(),
            status: RunStatus::Running,
        },
        (Step::AwaitBuffer, GlEvent::Handle(false)) => Transition {
            step: Step::Halted,
            calls: seq![],
            status: RunStatus::Failed(buffer_error_text()),
        },
        (Step::AwaitShader(kind), GlEvent::Handle(true)) => Transition {
            step: Step::AwaitCompile(kind),
            calls: calls_on_shader_ok(kind),
            status: RunStatus::Running,
        },
        (Step::AwaitShader(_), GlEvent::Handle(false)) => Transition {
            step: Step::Halted,
            calls: seq![],
            status: RunStatus::Failed(shader_create_error_text()),
        },
        (Step::AwaitCompile(kind), GlEvent::Status(flag)) => {
            if flag == Some(true) {
                Transition {
                    step: match kind {
                        ShaderKind::Vertex => Step::AwaitShader(ShaderKind::Fragment),
                        ShaderKind::Fragment => Step::AwaitProgram,
                    },
                    calls: calls_on_compile_ok(kind),
                    status: RunStatus::Running,
                }
            } else {
                Transition {
                    step: Step::AwaitCompileLog(kind),
                    calls: calls_on_compile_failed(kind),
                    status: RunStatus::Running,
                }
            }
        },
        (Step::AwaitCompileLog(_), GlEvent::Log(log)) => Transition {
            step: Step::Halted,
            calls: seq![],
            status: RunStatus::Failed(compile_fail_message(log_view(log))),
        },
        (Step::AwaitProgram, GlEvent::Handle(true)) => Transition {
            step: Step::AwaitLink,
            calls: calls_on_program_ok(),
            status: RunStatus::Running,
        },
        (Step::AwaitProgram, GlEvent::Handle(false)) => Transition {
            step: Step::Halted,
            calls: seq![],
            status: RunStatus::Failed(program_create_error_text()),
        },
        (Step::AwaitLink, GlEvent::Status(flag)) => {
            if flag == Some(true) {
                Transition {
                    step: Step::Halted,
                    calls: calls_on_link_ok(),
                    status: RunStatus::Finished,
                }
            } else {
                Transition {
                    step: Step::AwaitLinkLog,
                    calls: calls_on_link_failed(),
                    status: RunStatus::Running,
                }
            }
        },
        (Step::AwaitLinkLog, GlEvent::Log(log)) => Transition {
            step: Step::Halted,
            calls: seq![],
            status: RunStatus::Failed(link_fail_message(log_view(log))),
        },
        _ => Transition { step: s, calls: seq![], status: RunStatus::Running },
    }
}

/// The step machine. A fresh one stands at `Begin`; it holds nothing else,
/// so every run is decided by the driver's replies alone.
pub struct Renderer {
    pub step: Step,
}

impl Renderer {
    /// A fresh machine, about to hear whether a context was obtained.
    pub fn new() -> (r: Renderer)
        ensures
            r.step == Step::Begin,
    {
        Renderer { step: Step::Begin }
    }

    /// Whether this machine takes the given reply in its current state.
    pub fn accepts(&self, ev: &GlEvent) -> (b: bool)
        ensures
            b == expects(self.step, *ev),
    {
        match (self.step, ev) {
            (Step::Begin, GlEvent::Context(_)) => true,
            (Step::AwaitBuffer, GlEvent::Handle(_)) => true,
            (Step::AwaitShader(_), GlEvent::Handle(_)) => true,
            (Step::AwaitProgram, GlEvent::Handle(_)) => true,
            (Step::AwaitCompile(_), GlEvent::Status(_)) => true,
            (Step::AwaitLink, GlEvent::Status(_)) => true,
            (Step::AwaitCompileLog(_), GlEvent::Log(_)) => true,
            (Step::AwaitLinkLog, GlEvent::Log(_)) => true,
            _ => false,
        }
    }

    /// Feed the driver's reply to the last decisive call; get the next
    /// batch, the finishing batch, or the error the failing step owes.
    pub fn next(&mut self, ev: GlEvent) -> (out: Outcome)
        requires
            expects(old(self).step, ev),
        ensures
            ({
                let t = next_spec(old(self).step, ev);
                &&& final(self).step == t.step
                &&& (match out {
                    Outcome::Query(calls) => calls@ == t.calls && t.status is Running,
                    Outcome::Finished(calls) => calls@ == t.calls && t.status is Finished,
                    Outcome::Failed(msg) => {
                        &&& t.calls == Seq::<GlCall>::empty()
                        &&& t.status matches RunStatus::Failed(m) && msg@ == m
                    },
                })
            }),
    {
        match (self.step, ev) {
            (Step::Begin, GlEvent::Context(None)) => {
                self.step = Step::AwaitBuffer;
                Outcome::Query(batch_on_context_ok())
            },
            (Step::Begin, GlEvent::Context(Some(m))) => {
                self.step = Step::Halted;
                Outcome::Failed(m)
            },
            (Step::AwaitBuffer, GlEvent::Handle(true)) => {
                self.step = Step::AwaitShader(ShaderKind::Vertex);
                Outcome::Query(batch_on_buffer_ok())
            },
            (Step::AwaitBuffer, GlEvent::Handle(false)) => {
                self.step = Step::Halted;
                Outcome::Failed("Failed to Create Buffer".to_owned())
            },
            (Step::AwaitShader(kind), GlEvent::Handle(true)) => {
                self.step = Step::AwaitCompile(kind);
                Outcome::Query(batch_on_shader_ok(kind))
            },
            (Step::AwaitShader(_), GlEvent::Handle(false)) => {
                self.step = Step::Halted;
                Outcome::Failed("Failed to create Shader".to_owned())
            },
            (Step::AwaitCompile(kind), GlEvent::Status(flag)) => {
                match flag {
                    Some(true) => {
                        match kind {
                            ShaderKind::Vertex => {
                                self.step = Step::AwaitShader(ShaderKind::Fragment);
                                Outcome::Query(batch_on_vertex_compile_ok())
                            },
                            ShaderKind::Fragment => {
                                self.step = Step::AwaitProgram;
                                Outcome::Query(batch_on_fragment_compile_ok())
                            },
                        }
                    },
                    _ => {
                        self.step = Step::AwaitCompileLog(kind);
                        Outcome::Query(batch_on_compile_failed(kind))
                    },
                }
            },
            (Step::AwaitCompileLog(_), GlEvent::Log(log)) => {
                self.step = Step::Halted;
                Outcome::Failed(log_or(log, "Unknown error creating shader"))
            },
            (Step::AwaitProgram, GlEvent::Handle(true)) => {
                self.step = Step::AwaitLink;
                Outcome::Query(batch_on_program_ok())
            },
            (Step::AwaitProgram, GlEvent::Handle(false)) => {
                self.step = Step::Halted;
                Outcome::Failed("Could not Create shader program".to_owned())
            },
            (Step::AwaitLink, GlEvent::Status(flag)) => {
                match flag {
                    Some(true) => {
                        self.step = Step::Halted;
                        Outcome::Finished(batch_on_link_ok())
                    },
                    _ => {
                        self.step = Step::AwaitLinkLog;
                        Outcome::Query(batch_on_link_failed())
                    },
                }
            },
            (Step::AwaitLinkLog, GlEvent::Log(log)) => {
                self.step = Step::Halted;
                Outcome::Failed(log_or(log, "Could not Link Shader, unknown error"))
            },
            _ => unreached(),
        }
    }
}

// ---------------------------------------------------------------------------
// Executable batch builders and the log fallback rule
// ---------------------------------------------------------------------------

/// The driver's log when non-empty, else the fallback.
fn log_or(log: Option<String>, fallback: &str) -> (m: String)
    ensures
        m@ == (match log {
            Some(s) => if s@.len() > 0 { s@ } else { fallback@ },
            None => fallback@,
        }),
{
    match log {
        Some(s) => {
            if !s.as_str().is_empty() {
                s
            } else {
                fallback.to_owned()
            }
        },
        None => fallback.to_owned(),
    }
}

fn batch_on_context_ok() -> (v: Vec<GlCall>)
    ensures
        v@ == calls_on_context_ok(),
{
    let mut v: Vec<GlCall> = Vec::new();
    v.push(GlCall::CreateBuffer);
    proof {
        assert(v@ =~= calls_on_context_ok());
    }
    v
}

fn batch_on_buffer_ok() -> (v: Vec<GlCall>)
    ensures
        v@ == calls_on_buffer_ok(),
{
    let mut v: Vec<GlCall> = Vec::new();
    v.push(GlCall::BindArrayBuffer);
    v.push(GlCall::BufferData);
    v.push(GlCall::CreateShader(ShaderKind::Vertex));
    proof {
        assert(v@ =~= calls_on_buffer_ok());
    }
    v
}

fn batch_on_shader_ok(kind: ShaderKind) -> (v: Vec<GlCall>)
    ensures
        v@ == calls_on_shader_ok(kind),
{
    let mut v: Vec<GlCall> = Vec::new();
    v.push(GlCall::ShaderSource(kind));
    v.push(GlCall::CompileShader(kind));
    v.push(GlCall::GetCompileStatus(kind));
    proof {
        assert(v@ =~= calls_on_shader_ok(kind));
    }
    v
}

fn batch_on_vertex_compile_ok() -> (v: Vec<GlCall>)
    ensures
        v@ == calls_on_compile_ok(ShaderKind::Vertex),
{
    let mut v: Vec<GlCall> = Vec::new();
    v.push(GlCall::CreateShader(ShaderKind::Fragment));
    proof {
        assert(v@ =~= calls_on_compile_ok(ShaderKind::Vertex));
    }
    v
}

fn batch_on_fragment_compile_ok() -> (v: Vec<GlCall>)
    ensures
        v@ == calls_on_compile_ok(ShaderKind::Fragment),
{
    let mut v: Vec<GlCall> = Vec::new();
    v.push(GlCall::CreateProgram);
    proof {
        assert(v@ =~= calls_on_compile_ok(ShaderKind::Fragment));
    }
    v
}

fn batch_on_compile_failed(kind: ShaderKind) -> (v: Vec<GlCall>)
    ensures
        v@ == calls_on_compile_failed(kind),
{
    let mut v: Vec<GlCall> = Vec::new();
    v.push(GlCall::GetShaderInfoLog(kind));
    proof {
        assert(v@ =~= calls_on_compile_failed(kind));
    }
    v
}

fn batch_on_program_ok() -> (v: Vec<GlCall>)
    ensures
        v@ == calls_on_program_ok(),
{
    let mut v: Vec<GlCall> = Vec::new();
    v.push(GlCall::AttachShader(ShaderKind::Vertex));
    v.push(GlCall::AttachShader(ShaderKind::Fragment));
    v.push(GlCall::LinkProgram);
    v.push(GlCall::GetLinkStatus);
    proof {
        assert(v@ =~= calls_on_program_ok());
    }
    v
}

fn batch_on_link_failed() -> (v: Vec<GlCall>)
    ensures
        v@ == calls_on_link_failed(),
{
    let mut v: Vec<GlCall> = Vec::new();
    v.push(GlCall::GetProgramInfoLog);
    proof {
        assert(v@ =~= calls_on_link_failed());
    }
    v
}

fn batch_on_link_ok() -> (v: Vec<GlCall>)
    ensures
        v@ == calls_on_link_ok(),
{
    let verts = vertex_data();
    let n: usize = verts.len();
    let count: i32 = (n / 3) as i32;
    let mut v: Vec<GlCall> = Vec::new();
    v.push(GlCall::UseProgram);
    v.push(GlCall::VertexAttribPointer { index: 0, size: 3, normalized: false, stride: 0, offset: 0 });
    v.push(GlCall::EnableVertexAttribArray(0));
    v.push(GlCall::ClearColor {
        red_bits: 0x0000_0000,
        green_bits: 0x0000_0000,
        blue_bits: 0x0000_0000,
        alpha_bits: 0x3F80_0000,
    });
    v.push(GlCall::Clear);
    v.push(GlCall::DrawArrays { first: 0, count });
    proof {
        assert(v@ =~= calls_on_link_ok());
    }
    v
}

} // verus!
