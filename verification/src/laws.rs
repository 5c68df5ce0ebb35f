//! What holds of whole runs of the step machine: the exact call trace of a
//! successful run, what each failure cuts off, which message each failure
//! reports, and that nothing carries over from one run to the next.

use vstd::prelude::*;

use crate::gl::{GlCall, GlEvent, ShaderKind, draw_count, vertex_bits};
use crate::pipeline::{
    Renderer, RunStatus, Step, Transition, calls_on_buffer_ok, calls_on_compile_failed,
    calls_on_compile_ok, calls_on_context_ok, calls_on_link_failed, calls_on_link_ok,
    calls_on_program_ok, calls_on_shader_ok, compile_fail_message, link_fail_message,
    link_fallback_text, log_view, next_spec,
};

verus! {

// ---------------------------------------------------------------------------
// Whole runs
// ---------------------------------------------------------------------------

/// A whole run: fold the machine over a sequence of driver replies,
/// collecting every call it emits. A terminal transition ends the run; what
/// follows it is never consumed, so a halted machine emits nothing further.
pub open spec fn run(s: Step, evs: Seq<GlEvent>) -> Transition
    decreases evs.len(),
{
    if evs.len() == 0 {
        Transition { step: s, calls: seq![], status: RunStatus::Running }
    } else {
        let t = next_spec(s, evs[0]);
        if t.status is Running {
            let rest = run(t.step, evs.drop_first());
            Transition { step: rest.step, calls: t.calls + rest.calls, status: rest.status }
        } else {
            t
        }
    }
}

/// The replies of a driver that grants every request: a context, the three
/// objects, both compiles, and the link.
pub open spec fn happy_events() -> Seq<GlEvent> {
    seq![
        GlEvent::Context(None),
        GlEvent::Handle(true),
        GlEvent::Handle(true),
        GlEvent::Status(Some(true)),
        GlEvent::Handle(true),
        GlEvent::Status(Some(true)),
        GlEvent::Handle(true),
        GlEvent::Status(Some(true)),
    ]
}

/// Every call of a fully successful run, in order.
pub open spec fn success_trace() -> Seq<GlCall> {
    calls_on_context_ok() + calls_on_buffer_ok() + calls_on_shader_ok(ShaderKind::Vertex)
        + calls_on_compile_ok(ShaderKind::Vertex) + calls_on_shader_ok(ShaderKind::Fragment)
        + calls_on_compile_ok(ShaderKind::Fragment) + calls_on_program_ok() + calls_on_link_ok()
}

// ---------------------------------------------------------------------------
// The fixed data
// ---------------------------------------------------------------------------

/// The vertex array always holds nine values, a multiple of three, and the
/// draw call's vertex count is derived from it: their quotient, three.
pub proof fn lemma_vertex_array_shape()
    ensures
        vertex_bits().len() == 9,
        vertex_bits().len() % 3 == 0,
        draw_count() == 3,
        calls_on_link_ok()[5] == (GlCall::DrawArrays { first: 0, count: 3 }),
{
}

// ---------------------------------------------------------------------------
// Successful runs
// ---------------------------------------------------------------------------

/// On a driver that grants everything, the machine emits exactly the full
/// pipeline - one buffer created, two shaders created and compiled, one
/// program created, linked and activated, one draw call with first 0 and
/// count 3 - and finishes.
pub proof fn lemma_success_trace()
    ensures
        run(Step::Begin, happy_events()).calls =~= success_trace(),
        run(Step::Begin, happy_events()).status is Finished,
        run(Step::Begin, happy_events()).step is Halted,
        success_trace().len() == 22,
        forall|i: int|
            0 <= i < success_trace().len() ==> ((#[trigger] success_trace()[i] is CreateBuffer) <==> i == 0),
        forall|i: int|
            0 <= i < success_trace().len() ==> ((#[trigger] success_trace()[i] is CreateShader) <==> (i == 3 || i == 7)),
        forall|i: int|
            0 <= i < success_trace().len() ==> ((#[trigger] success_trace()[i] is CompileShader) <==> (i == 5 || i == 9)),
        forall|i: int|
            0 <= i < success_trace().len() ==> ((#[trigger] success_trace()[i] is CreateProgram) <==> i == 11),
        forall|i: int|
            0 <= i < success_trace().len() ==> ((#[trigger] success_trace()[i] is LinkProgram) <==> i == 14),
        forall|i: int|
            0 <= i < success_trace().len() ==> ((#[trigger] success_trace()[i] is UseProgram) <==> i == 16),
        forall|i: int|
            0 <= i < success_trace().len() ==> ((#[trigger] success_trace()[i] is DrawArrays) <==> i == 21),
        success_trace()[21] == (GlCall::DrawArrays { first: 0, count: 3 }),
{
    let e0 = happy_events();
    let e1 = e0.drop_first();
    let e2 = e1.drop_first();
    let e3 = e2.drop_first();
    let e4 = e3.drop_first();
    let e5 = e4.drop_first();
    let e6 = e5.drop_first();
    let e7 = e6.drop_first();
    assert(run(Step::AwaitLink, e7).calls =~= calls_on_link_ok());
    assert(run(Step::AwaitProgram, e6).calls =~= calls_on_program_ok() + calls_on_link_ok());
    assert(run(Step::AwaitCompile(ShaderKind::Fragment), e5).calls =~= calls_on_compile_ok(
        ShaderKind::Fragment,
    ) + calls_on_program_ok() + calls_on_link_ok());
    assert(run(Step::AwaitShader(ShaderKind::Fragment), e4).calls =~= calls_on_shader_ok(
        ShaderKind::Fragment,
    ) + calls_on_compile_ok(ShaderKind::Fragment) + calls_on_program_ok() + calls_on_link_ok());
    assert(run(Step::AwaitCompile(ShaderKind::Vertex), e3).calls =~= calls_on_compile_ok(
        ShaderKind::Vertex,
    ) + calls_on_shader_ok(ShaderKind::Fragment) + calls_on_compile_ok(ShaderKind::Fragment)
        + calls_on_program_ok() + calls_on_link_ok());
    assert(run(Step::AwaitShader(ShaderKind::Vertex), e2).calls =~= calls_on_shader_ok(
        ShaderKind::Vertex,
    ) + calls_on_compile_ok(ShaderKind::Vertex) + calls_on_shader_ok(ShaderKind::Fragment)
        + calls_on_compile_ok(ShaderKind::Fragment) + calls_on_program_ok()
        + calls_on_link_ok());
    assert(run(Step::AwaitBuffer, e1).calls =~= calls_on_buffer_ok() + calls_on_shader_ok(
        ShaderKind::Vertex,
    ) + calls_on_compile_ok(ShaderKind::Vertex) + calls_on_shader_ok(ShaderKind::Fragment)
        + calls_on_compile_ok(ShaderKind::Fragment) + calls_on_program_ok()
        + calls_on_link_ok());
    assert(run(Step::Begin, e0).calls =~= success_trace());
    assert(success_trace() =~= seq![
        GlCall::CreateBuffer,
        GlCall::BindArrayBuffer,
        GlCall::BufferData,
        GlCall::CreateShader(ShaderKind::Vertex),
        GlCall::ShaderSource(ShaderKind::Vertex),
        GlCall::CompileShader(ShaderKind::Vertex),
        GlCall::GetCompileStatus(ShaderKind::Vertex),
        GlCall::CreateShader(ShaderKind::Fragment),
        GlCall::ShaderSource(ShaderKind::Fragment),
        GlCall::CompileShader(ShaderKind::Fragment),
        GlCall::GetCompileStatus(ShaderKind::Fragment),
        GlCall::CreateProgram,
        GlCall::AttachShader(ShaderKind::Vertex),
        GlCall::AttachShader(ShaderKind::Fragment),
        GlCall::LinkProgram,
        GlCall::GetLinkStatus,
        GlCall::UseProgram,
        (GlCall::VertexAttribPointer { index: 0, size: 3, normalized: false, stride: 0, offset: 0 }),
        GlCall::EnableVertexAttribArray(0),
        (GlCall::ClearColor {
            red_bits: 0x0000_0000,
            green_bits: 0x0000_0000,
            blue_bits: 0x0000_0000,
            alpha_bits: 0x3F80_0000,
        }),
        GlCall::Clear,
        (GlCall::DrawArrays { first: 0, count: 3 }),
    ]);
}

// ---------------------------------------------------------------------------
// Failed runs
// ---------------------------------------------------------------------------

/// A transition that fails emits no graphics call: every error leaves the
/// driver exactly as the last successful step left it.
pub proof fn lemma_failure_emits_nothing(s: Step, ev: GlEvent)
    ensures
        next_spec(s, ev).status is Failed ==> next_spec(s, ev).calls =~= Seq::<GlCall>::empty(),
{
}

/// A halted machine emits no graphics call, whatever it is fed.
pub proof fn lemma_halted_emits_nothing(evs: Seq<GlEvent>)
    ensures
        run(Step::Halted, evs).calls =~= Seq::<GlCall>::empty(),
        run(Step::Halted, evs).step is Halted,
    decreases evs.len(),
{
    if evs.len() > 0 {
        lemma_halted_emits_nothing(evs.drop_first());
    }
}

/// If no context can be obtained, the run fails with the collaborator's own
/// message and performs no graphics call at all, whatever replies would have
/// followed.
pub proof fn lemma_context_failure(msg: String, rest: Seq<GlEvent>)
    ensures
        run(Step::Begin, seq![GlEvent::Context(Some(msg))] + rest).calls =~= Seq::<
            GlCall,
        >::empty(),
        run(Step::Begin, seq![GlEvent::Context(Some(msg))] + rest).status == RunStatus::Failed(
            msg@,
        ),
        run(Step::Begin, seq![GlEvent::Context(Some(msg))] + rest).step is Halted,
{
    let evs = seq![GlEvent::Context(Some(msg))] + rest;
    assert(evs[0] == GlEvent::Context(Some(msg)));
}

/// If the vertex shader fails to compile, the machine fetches that shader's
/// log and stops: no fragment-shader call, no program call and no link call
/// is ever emitted, and the error is the driver's compile log when
/// non-empty, else the fallback text.
pub proof fn lemma_vertex_compile_failure(flag: Option<bool>, log: Option<String>)
    requires
        flag != Some(true),
    ensures
        ({
            let evs = seq![
                GlEvent::Context(None),
                GlEvent::Handle(true),
                GlEvent::Handle(true),
                GlEvent::Status(flag),
                GlEvent::Log(log),
            ];
            let t = run(Step::Begin, evs);
            &&& t.calls =~= calls_on_context_ok() + calls_on_buffer_ok() + calls_on_shader_ok(
                ShaderKind::Vertex,
            ) + calls_on_compile_failed(ShaderKind::Vertex)
            &&& forall|i: int|
                0 <= i < t.calls.len() ==> !((#[trigger] t.calls[i]) is CreateProgram)
                    && !(t.calls[i] is LinkProgram) && t.calls[i] != GlCall::CreateShader(
                    ShaderKind::Fragment,
                ) && t.calls[i] != GlCall::CompileShader(ShaderKind::Fragment)
            &&& t.status == RunStatus::Failed(compile_fail_message(log_view(log)))
            &&& (log matches Some(s) ==> (s@.len() > 0 ==> t.status == RunStatus::Failed(s@))
                && (s@.len() == 0 ==> t.status == RunStatus::Failed(
                "Unknown error creating shader"@,
            )))
            &&& (log is None ==> t.status == RunStatus::Failed("Unknown error creating shader"@))
            &&& t.step is Halted
        }),
{
    let evs = seq![
        GlEvent::Context(None),
        GlEvent::Handle(true),
        GlEvent::Handle(true),
        GlEvent::Status(flag),
        GlEvent::Log(log),
    ];
    let e1 = evs.drop_first();
    let e2 = e1.drop_first();
    let e3 = e2.drop_first();
    let e4 = e3.drop_first();
    assert(run(Step::AwaitCompileLog(ShaderKind::Vertex), e4).status == RunStatus::Failed(
        compile_fail_message(log_view(log)),
    ));
    assert(run(Step::AwaitCompile(ShaderKind::Vertex), e3).calls =~= calls_on_compile_failed(
        ShaderKind::Vertex,
    ));
    assert(run(Step::AwaitShader(ShaderKind::Vertex), e2).calls =~= calls_on_shader_ok(
        ShaderKind::Vertex,
    ) + calls_on_compile_failed(ShaderKind::Vertex));
    assert(run(Step::AwaitBuffer, e1).calls =~= calls_on_buffer_ok() + calls_on_shader_ok(
        ShaderKind::Vertex,
    ) + calls_on_compile_failed(ShaderKind::Vertex));
    assert(run(Step::Begin, evs).calls =~= calls_on_context_ok() + calls_on_buffer_ok()
        + calls_on_shader_ok(ShaderKind::Vertex) + calls_on_compile_failed(ShaderKind::Vertex));
}

/// If linking fails, the machine fetches the program's log and stops, and
/// the error is the driver's link log when non-empty, else the fallback
/// text.
pub proof fn lemma_link_failure(flag: Option<bool>, log: Option<String>)
    requires
        flag != Some(true),
    ensures
        ({
            let evs = seq![
                GlEvent::Context(None),
                GlEvent::Handle(true),
                GlEvent::Handle(true),
                GlEvent::Status(Some(true)),
                GlEvent::Handle(true),
                GlEvent::Status(Some(true)),
                GlEvent::Handle(true),
                GlEvent::Status(flag),
                GlEvent::Log(log),
            ];
            let t = run(Step::Begin, evs);
            &&& t.calls =~= calls_on_context_ok() + calls_on_buffer_ok() + calls_on_shader_ok(
                ShaderKind::Vertex,
            ) + calls_on_compile_ok(ShaderKind::Vertex) + calls_on_shader_ok(ShaderKind::Fragment)
                + calls_on_compile_ok(ShaderKind::Fragment) + calls_on_program_ok()
                + calls_on_link_failed()
            &&& t.status == RunStatus::Failed(link_fail_message(log_view(log)))
            &&& (log matches Some(s) ==> (s@.len() > 0 ==> t.status == RunStatus::Failed(s@))
                && (s@.len() == 0 ==> t.status == RunStatus::Failed(
                link_fallback_text(),
            )))
            &&& (log is None ==> t.status == RunStatus::Failed(
                "Could not Link Shader, unknown error"@,
            ))
            &&& t.step is Halted
        }),
{
    let evs = seq![
        GlEvent::Context(None),
        GlEvent::Handle(true),
        GlEvent::Handle(true),
        GlEvent::Status(Some(true)),
        GlEvent::Handle(true),
        GlEvent::Status(Some(true)),
        GlEvent::Handle(true),
        GlEvent::Status(flag),
        GlEvent::Log(log),
    ];
    let e1 = evs.drop_first();
    let e2 = e1.drop_first();
    let e3 = e2.drop_first();
    let e4 = e3.drop_first();
    let e5 = e4.drop_first();
    let e6 = e5.drop_first();
    let e7 = e6.drop_first();
    let e8 = e7.drop_first();
    assert(run(Step::AwaitLinkLog, e8).status == RunStatus::Failed(
        link_fail_message(log_view(log)),
    ));
    assert(run(Step::AwaitLink, e7).calls =~= calls_on_link_failed());
    assert(run(Step::AwaitProgram, e6).calls =~= calls_on_program_ok() + calls_on_link_failed());
    assert(run(Step::AwaitCompile(ShaderKind::Fragment), e5).calls =~= calls_on_compile_ok(
        ShaderKind::Fragment,
    ) + calls_on_program_ok() + calls_on_link_failed());
    assert(run(Step::AwaitShader(ShaderKind::Fragment), e4).calls =~= calls_on_shader_ok(
        ShaderKind::Fragment,
    ) + calls_on_compile_ok(ShaderKind::Fragment) + calls_on_program_ok()
        + calls_on_link_failed());
    assert(run(Step::AwaitCompile(ShaderKind::Vertex), e3).calls =~= calls_on_compile_ok(
        ShaderKind::Vertex,
    ) + calls_on_shader_ok(ShaderKind::Fragment) + calls_on_compile_ok(ShaderKind::Fragment)
        + calls_on_program_ok() + calls_on_link_failed());
    assert(run(Step::AwaitShader(ShaderKind::Vertex), e2).calls =~= calls_on_shader_ok(
        ShaderKind::Vertex,
    ) + calls_on_compile_ok(ShaderKind::Vertex) + calls_on_shader_ok(ShaderKind::Fragment)
        + calls_on_compile_ok(ShaderKind::Fragment) + calls_on_program_ok()
        + calls_on_link_failed());
    assert(run(Step::AwaitBuffer, e1).calls =~= calls_on_buffer_ok() + calls_on_shader_ok(
        ShaderKind::Vertex,
    ) + calls_on_compile_ok(ShaderKind::Vertex) + calls_on_shader_ok(ShaderKind::Fragment)
        + calls_on_compile_ok(ShaderKind::Fragment) + calls_on_program_ok()
        + calls_on_link_failed());
}

// ---------------------------------------------------------------------------
// Runs carry no hidden state
// ---------------------------------------------------------------------------

/// Two fresh machines fed the same driver replies emit the same calls and
/// end the same way: a run is decided by the replies alone, and nothing
/// accumulates from one run to the next.
pub proof fn lemma_fresh_runs_identical(r1: Renderer, r2: Renderer, evs: Seq<GlEvent>)
    requires
        r1.step is Begin,
        r2.step is Begin,
    ensures
        run(r1.step, evs) == run(r2.step, evs),
{
}

} // verus!
