use vstd::prelude::*;

verus! {

/// One OpenGL call that the library asks its caller to issue, with the
/// arguments it is to be issued with. Handles are the driver's object names.
#[derive(Debug, PartialEq, Eq)]
pub enum GlCall {
    /// `glShaderSource(shader, 1, [source], NULL)`: the source as one string.
    ShaderSource { shader: u32, source: String },
    /// `glCompileShader(shader)`.
    CompileShader { shader: u32 },
    /// `glAttachShader(program, shader)`.
    AttachShader { program: u32, shader: u32 },
    /// `glLinkProgram(program)`.
    LinkProgram { program: u32 },
    /// `glDeleteShader(shader)`.
    DeleteShader { shader: u32 },
    /// `glDeleteProgram(program)`.
    DeleteProgram { program: u32 },
}

} // verus!
