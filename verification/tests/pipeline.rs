use hello_triangle::gl::{GlCall, GlEvent, ShaderKind, shader_text, vertex_data};
use hello_triangle::pipeline::{Outcome, Renderer};

/// Drives a fresh machine with the given driver replies, collecting every
/// emitted call, until the machine finishes or fails.
fn drive(replies: Vec<GlEvent>) -> (Vec<GlCall>, Result<(), String>) {
    let mut r = Renderer::new();
    let mut calls: Vec<GlCall> = Vec::new();
    for ev in replies {
        assert!(r.accepts(&ev), "the machine must accept each scripted reply");
        match r.next(ev) {
            Outcome::Query(batch) => calls.extend(batch),
            Outcome::Finished(batch) => {
                calls.extend(batch);
                return (calls, Ok(()));
            }
            Outcome::Failed(msg) => {
                return (calls, Err(msg));
            }
        }
    }
    panic!("the scripted replies ran out before the machine ended the run");
}

fn happy_replies() -> Vec<GlEvent> {
    vec![
        GlEvent::Context(None),
        GlEvent::Handle(true),
        GlEvent::Handle(true),
        GlEvent::Status(Some(true)),
        GlEvent::Handle(true),
        GlEvent::Status(Some(true)),
        GlEvent::Handle(true),
        GlEvent::Status(Some(true)),
    ]
}

fn expected_success_calls() -> Vec<GlCall> {
    vec![
        GlCall::CreateBuffer,
        GlCall::BindArrayBuffer,
        GlCall::BufferData,
        GlCall::CreateShader(ShaderKind::Vertex),
        GlCall::ShaderSource(ShaderKind::Vertex),
        GlCall::CompileShader(ShaderKind::Vertex),
        GlCall::GetCompileStatus(ShaderKind::Vertex),
        GlCall::CreateShader(ShaderKind::Fragment),
        GlCall::ShaderSource(ShaderKind::Fragment),
        GlCall::CompileShader(ShaderKind::Fragment),
        GlCall::GetCompileStatus(ShaderKind::Fragment),
        GlCall::CreateProgram,
        GlCall::AttachShader(ShaderKind::Vertex),
        GlCall::AttachShader(ShaderKind::Fragment),
        GlCall::LinkProgram,
        GlCall::GetLinkStatus,
        GlCall::UseProgram,
        GlCall::VertexAttribPointer {
            index: 0,
            size: 3,
            normalized: false,
            stride: 0,
            offset: 0,
        },
        GlCall::EnableVertexAttribArray(0),
        GlCall::ClearColor {
            red_bits: 0x0000_0000,
            green_bits: 0x0000_0000,
            blue_bits: 0x0000_0000,
            alpha_bits: 0x3F80_0000,
        },
        GlCall::Clear,
        GlCall::DrawArrays { first: 0, count: 3 },
    ]
}

#[test]
fn happy_path_emits_full_pipeline() {
    let (calls, result) = drive(happy_replies());
    assert_eq!(result, Ok(()));
    assert_eq!(calls, expected_success_calls());
    assert_eq!(calls.len(), 22);
    let creates = calls
        .iter()
        .filter(|c| matches!(c, GlCall::CreateBuffer))
        .count();
    assert_eq!(creates, 1);
    let shaders = calls
        .iter()
        .filter(|c| matches!(c, GlCall::CreateShader(_)))
        .count();
    assert_eq!(shaders, 2);
    let compiles = calls
        .iter()
        .filter(|c| matches!(c, GlCall::CompileShader(_)))
        .count();
    assert_eq!(compiles, 2);
    let programs = calls
        .iter()
        .filter(|c| matches!(c, GlCall::CreateProgram))
        .count();
    assert_eq!(programs, 1);
    let links = calls
        .iter()
        .filter(|c| matches!(c, GlCall::LinkProgram))
        .count();
    assert_eq!(links, 1);
    let draws = calls
        .iter()
        .filter(|c| matches!(c, GlCall::DrawArrays { .. }))
        .count();
    assert_eq!(draws, 1);
    assert_eq!(calls.last(), Some(&GlCall::DrawArrays { first: 0, count: 3 }));
}

#[test]
fn vertex_array_has_nine_coordinates_in_three_triples() {
    let v = vertex_data();
    assert_eq!(v.len(), 9);
    assert_eq!(v.len() % 3, 0);
    assert_eq!((v.len() / 3) as i32, 3);
    let floats: Vec<f32> = v.iter().map(|bits| f32::from_bits(*bits)).collect();
    assert_eq!(
        floats,
        vec![-0.5, -0.5, 0.0, 0.5, -0.5, 0.0, 0.0, 0.5, 0.0]
    );
}

#[test]
fn draw_count_matches_vertex_array() {
    let (calls, _) = drive(happy_replies());
    let n = vertex_data().len();
    assert_eq!(
        calls.last(),
        Some(&GlCall::DrawArrays {
            first: 0,
            count: (n / 3) as i32,
        })
    );
}

#[test]
fn context_failure_returns_its_message_and_makes_no_calls() {
    let (calls, result) = drive(vec![GlEvent::Context(Some(
        "WebGL not supported".to_string(),
    ))]);
    assert_eq!(result, Err("WebGL not supported".to_string()));
    assert!(calls.is_empty());
}

#[test]
fn halted_machine_accepts_nothing() {
    let mut r = Renderer::new();
    let ev = GlEvent::Context(Some("no context".to_string()));
    assert!(r.accepts(&ev));
    match r.next(ev) {
        Outcome::Failed(_) => {}
        _ => panic!("a missing context must fail the run"),
    }
    assert!(!r.accepts(&GlEvent::Context(None)));
    assert!(!r.accepts(&GlEvent::Handle(true)));
    assert!(!r.accepts(&GlEvent::Status(Some(true))));
    assert!(!r.accepts(&GlEvent::Log(None)));
}

#[test]
fn buffer_creation_failure_message() {
    let (calls, result) = drive(vec![GlEvent::Context(None), GlEvent::Handle(false)]);
    assert_eq!(result, Err("Failed to Create Buffer".to_string()));
    assert_eq!(calls, vec![GlCall::CreateBuffer]);
}

#[test]
fn shader_creation_failure_message() {
    let (calls, result) = drive(vec![
        GlEvent::Context(None),
        GlEvent::Handle(true),
        GlEvent::Handle(false),
    ]);
    assert_eq!(result, Err("Failed to create Shader".to_string()));
    assert!(!calls.contains(&GlCall::CreateShader(ShaderKind::Fragment)));
    assert!(!calls.contains(&GlCall::CompileShader(ShaderKind::Vertex)));
}

#[test]
fn vertex_compile_failure_reports_the_driver_log() {
    let (calls, result) = drive(vec![
        GlEvent::Context(None),
        GlEvent::Handle(true),
        GlEvent::Handle(true),
        GlEvent::Status(Some(false)),
        GlEvent::Log(Some("0:1: syntax error".to_string())),
    ]);
    assert_eq!(result, Err("0:1: syntax error".to_string()));
    assert!(!calls.contains(&GlCall::CreateShader(ShaderKind::Fragment)));
    assert!(!calls.contains(&GlCall::CompileShader(ShaderKind::Fragment)));
    assert!(!calls.contains(&GlCall::CreateProgram));
    assert!(!calls.contains(&GlCall::LinkProgram));
    assert_eq!(calls.last(), Some(&GlCall::GetShaderInfoLog(ShaderKind::Vertex)));
}

#[test]
fn vertex_compile_failure_without_log_uses_fallback() {
    let (_, result) = drive(vec![
        GlEvent::Context(None),
        GlEvent::Handle(true),
        GlEvent::Handle(true),
        GlEvent::Status(None),
        GlEvent::Log(None),
    ]);
    assert_eq!(result, Err("Unknown error creating shader".to_string()));
}

#[test]
fn vertex_compile_failure_with_empty_log_uses_fallback() {
    let (_, result) = drive(vec![
        GlEvent::Context(None),
        GlEvent::Handle(true),
        GlEvent::Handle(true),
        GlEvent::Status(Some(false)),
        GlEvent::Log(Some(String::new())),
    ]);
    assert_eq!(result, Err("Unknown error creating shader".to_string()));
}

#[test]
fn fragment_compile_failure_reports_the_driver_log() {
    let (calls, result) = drive(vec![
        GlEvent::Context(None),
        GlEvent::Handle(true),
        GlEvent::Handle(true),
        GlEvent::Status(Some(true)),
        GlEvent::Handle(true),
        GlEvent::Status(Some(false)),
        GlEvent::Log(Some("bad fragment".to_string())),
    ]);
    assert_eq!(result, Err("bad fragment".to_string()));
    assert!(!calls.contains(&GlCall::CreateProgram));
    assert!(!calls.contains(&GlCall::LinkProgram));
    assert_eq!(
        calls.last(),
        Some(&GlCall::GetShaderInfoLog(ShaderKind::Fragment))
    );
}

#[test]
fn program_creation_failure_message() {
    let (calls, result) = drive(vec![
        GlEvent::Context(None),
        GlEvent::Handle(true),
        GlEvent::Handle(true),
        GlEvent::Status(Some(true)),
        GlEvent::Handle(true),
        GlEvent::Status(Some(true)),
        GlEvent::Handle(false),
    ]);
    assert_eq!(result, Err("Could not Create shader program".to_string()));
    assert!(!calls.contains(&GlCall::AttachShader(ShaderKind::Vertex)));
    assert!(!calls.contains(&GlCall::LinkProgram));
}

#[test]
fn link_failure_reports_the_driver_log() {
    let (calls, result) = drive(vec![
        GlEvent::Context(None),
        GlEvent::Handle(true),
        GlEvent::Handle(true),
        GlEvent::Status(Some(true)),
        GlEvent::Handle(true),
        GlEvent::Status(Some(true)),
        GlEvent::Handle(true),
        GlEvent::Status(Some(false)),
        GlEvent::Log(Some("varyings do not match".to_string())),
    ]);
    assert_eq!(result, Err("varyings do not match".to_string()));
    assert!(!calls.contains(&GlCall::UseProgram));
    assert!(!calls.iter().any(|c| matches!(c, GlCall::DrawArrays { .. })));
    assert_eq!(calls.last(), Some(&GlCall::GetProgramInfoLog));
}

#[test]
fn link_failure_without_log_uses_fallback() {
    let (_, result) = drive(vec![
        GlEvent::Context(None),
        GlEvent::Handle(true),
        GlEvent::Handle(true),
        GlEvent::Status(Some(true)),
        GlEvent::Handle(true),
        GlEvent::Status(Some(true)),
        GlEvent::Handle(true),
        GlEvent::Status(None),
        GlEvent::Log(None),
    ]);
    assert_eq!(result, Err("Could not Link Shader, unknown error".to_string()));
}

#[test]
fn link_failure_with_empty_log_uses_fallback() {
    let (_, result) = drive(vec![
        GlEvent::Context(None),
        GlEvent::Handle(true),
        GlEvent::Handle(true),
        GlEvent::Status(Some(true)),
        GlEvent::Handle(true),
        GlEvent::Status(Some(true)),
        GlEvent::Handle(true),
        GlEvent::Status(Some(false)),
        GlEvent::Log(Some(String::new())),
    ]);
    assert_eq!(result, Err("Could not Link Shader, unknown error".to_string()));
}

#[test]
fn two_fresh_runs_make_identical_calls() {
    let (first_calls, first_result) = drive(happy_replies());
    let (second_calls, second_result) = drive(happy_replies());
    assert_eq!(first_calls, second_calls);
    assert_eq!(first_result, second_result);
}

#[test]
fn shader_sources_are_the_fixed_texts() {
    let vertex = shader_text(ShaderKind::Vertex);
    let fragment = shader_text(ShaderKind::Fragment);
    assert_eq!(
        vertex,
        "\n    attribute vec4 position;\n\n    void main() {\n        gl_Position = position;\n    }"
    );
    assert_eq!(
        fragment,
        "\n    void main() {\n        gl_FragColor = vec4(1.0, 1.0, 1.0, 1.0);\n    }\n    "
    );
}

#[test]
fn accepts_follows_each_step() {
    let mut r = Renderer::new();
    assert!(r.accepts(&GlEvent::Context(None)));
    assert!(!r.accepts(&GlEvent::Handle(true)));
    r.next(GlEvent::Context(None));
    assert!(r.accepts(&GlEvent::Handle(true)));
    assert!(!r.accepts(&GlEvent::Status(Some(true))));
    assert!(!r.accepts(&GlEvent::Log(None)));
    r.next(GlEvent::Handle(true));
    assert!(r.accepts(&GlEvent::Handle(false)));
    r.next(GlEvent::Handle(true));
    assert!(r.accepts(&GlEvent::Status(None)));
    assert!(!r.accepts(&GlEvent::Handle(true)));
}

#[test]
fn missing_status_boolean_counts_as_a_failed_compile() {
    let mut r = Renderer::new();
    r.next(GlEvent::Context(None));
    r.next(GlEvent::Handle(true));
    r.next(GlEvent::Handle(true));
    match r.next(GlEvent::Status(None)) {
        Outcome::Query(batch) => {
            assert_eq!(batch, vec![GlCall::GetShaderInfoLog(ShaderKind::Vertex)]);
        }
        _ => panic!("a status query without a boolean must lead to the log query"),
    }
}
