//! The fixed data of the triangle pipeline, and the vocabulary of graphics
//! calls and driver replies that the step machine speaks.

use vstd::prelude::*;

verus! {

/// Which of the two shader stages a call concerns.
#[derive(Clone, Copy, PartialEq, Eq, Structural, Debug)]
pub enum ShaderKind {
    Vertex,
    Fragment,
}

/// One graphics call for the driver to perform. Calls that the pipeline
/// always makes with the same arguments carry none; the few whose arguments
/// matter carry them as plain values.
#[derive(Clone, Copy, PartialEq, Eq, Structural, Debug)]
pub enum GlCall {
    /// Create the one buffer object; reply with `GlEvent::Handle`.
    CreateBuffer,
    /// Bind that buffer as the active array buffer.
    BindArrayBuffer,
    /// Upload the fixed vertex array into the bound array buffer, for static
    /// drawing.
    BufferData,
    /// Create a shader object of the given stage; reply with `GlEvent::Handle`.
    CreateShader(ShaderKind),
    /// Load the given stage's fixed source text into its shader object.
    ShaderSource(ShaderKind),
    /// Compile that shader object.
    CompileShader(ShaderKind),
    /// Query the shader's compile status; reply with `GlEvent::Status`.
    GetCompileStatus(ShaderKind),
    /// Query the shader's info log; reply with `GlEvent::Log`.
    GetShaderInfoLog(ShaderKind),
    /// Create the program object; reply with `GlEvent::Handle`.
    CreateProgram,
    /// Attach the given stage's compiled shader to the program.
    AttachShader(ShaderKind),
    /// Link the program.
    LinkProgram,
    /// Query the program's link status; reply with `GlEvent::Status`.
    GetLinkStatus,
    /// Query the program's info log; reply with `GlEvent::Log`.
    GetProgramInfoLog,
    /// Make the linked program the active one.
    UseProgram,
    /// Describe the vertex attribute layout: `size` 32-bit floats per vertex
    /// at attribute slot `index`, tightly packed.
    VertexAttribPointer { index: u32, size: i32, normalized: bool, stride: i32, offset: i32 },
    /// Enable the given attribute slot.
    EnableVertexAttribArray(u32),
    /// Set the clear color; each channel is an IEEE 754 single-precision bit
    /// pattern.
    ClearColor { red_bits: u32, green_bits: u32, blue_bits: u32, alpha_bits: u32 },
    /// Clear the color buffer.
    Clear,
    /// Draw `count` vertices starting at `first`, as a triangle list.
    DrawArrays { first: i32, count: i32 },
}

/// The driver's reply to the decisive call of a batch.
#[derive(Clone, PartialEq, Eq, Debug)]
pub enum GlEvent {
    /// Outcome of context acquisition by the outside collaborator: `None`
    /// when a context was obtained, `Some(msg)` when none could be, with the
    /// collaborator's message.
    Context(Option<String>),
    /// Whether a create call handed back an object.
    Handle(bool),
    /// A status query's answer, as the boolean the driver gave, if it gave
    /// one.
    Status(Option<bool>),
    /// An info-log query's answer.
    Log(Option<String>),
}

/// The triangle's vertex array: nine IEEE 754 single-precision bit patterns,
/// three vertices of three coordinates (x, y, z) each, in normalized device
/// coordinates: (-0.5, -0.5, 0), (0.5, -0.5, 0), (0, 0.5, 0).
pub open spec fn vertex_bits() -> Seq<u32> {
    seq![
        0xBF00_0000u32, 0xBF00_0000u32, 0x0000_0000u32,
        0x3F00_0000u32, 0xBF00_0000u32, 0x0000_0000u32,
        0x0000_0000u32, 0x3F00_0000u32, 0x0000_0000u32,
    ]
}

/// How many vertices one draw call covers: the vertex array's length over
/// the three coordinates each vertex takes, so the two cannot disagree.
pub open spec fn draw_count() -> int {
    vertex_bits().len() as int / 3
}

/// The vertex array as the driver uploads it.
pub fn vertex_data() -> (v: Vec<u32>)
    ensures
        v@ == vertex_bits(),
{
    let mut v: Vec<u32> = Vec::new();
    v.push(0xBF00_0000);
    v.push(0xBF00_0000);
    v.push(0x0000_0000);
    v.push(0x3F00_0000);
    v.push(0xBF00_0000);
    v.push(0x0000_0000);
    v.push(0x0000_0000);
    v.push(0x3F00_0000);
    v.push(0x0000_0000);
    proof {
        assert(v@ =~= vertex_bits());
    }
    v
}

/// The source text of each shader stage: a pass-through vertex shader and a
/// solid-white fragment shader. The driver parses it; this crate only hands
/// it over.
pub open spec fn shader_text_spec(kind: ShaderKind) -> Seq<char> {
    match kind {
        ShaderKind::Vertex => "\n    attribute vec4 position;\n\n    void main() {\n        gl_Position = position;\n    }"@,
        ShaderKind::Fragment => "\n    void main() {\n        gl_FragColor = vec4(1.0, 1.0, 1.0, 1.0);\n    }\n    "@,
    }
}

/// The shader source the `ShaderSource` call loads for the given stage.
pub fn shader_text(kind: ShaderKind) -> (s: &'static str)
    ensures
        s@ == shader_text_spec(kind),
{
    match kind {
        ShaderKind::Vertex => "\n    attribute vec4 position;\n\n    void main() {\n        gl_Position = position;\n    }",
        ShaderKind::Fragment => "\n    void main() {\n        gl_FragColor = vec4(1.0, 1.0, 1.0, 1.0);\n    }\n    ",
    }
}

} // verus!
