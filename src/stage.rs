use vstd::prelude::*;

verus! {

/// Value of `GL_VERTEX_SHADER` in the OpenGL registry.
pub const VERTEX_SHADER_KIND: u32 = 0x8B31;

/// Value of `GL_FRAGMENT_SHADER` in the OpenGL registry.
pub const FRAGMENT_SHADER_KIND: u32 = 0x8B30;

/// One programmable stage of the pipeline that a shader object is made for.
#[derive(Clone, Copy, Debug, PartialEq, Eq, Structural)]
pub enum Stage {
    Vertex,
    Fragment,
}

impl Stage {
    /// The `GLenum` that `glCreateShader` takes for this stage.
    pub open spec fn kind_spec(self) -> u32 {
        match self {
            Stage::Vertex => VERTEX_SHADER_KIND,
            Stage::Fragment => FRAGMENT_SHADER_KIND,
        }
    }

    /// The shader type to pass to `glCreateShader` for an object of this stage.
    pub fn kind(self) -> (r: u32)
        ensures
            r == self.kind_spec(),
    {
        match self {
            Stage::Vertex => vertex_shader_kind(),
            Stage::Fragment => fragment_shader_kind(),
        }
    }
}

/// Relies on the constant `gl::VERTEX_SHADER`, which the gl crate generates
/// from the Khronos registry entry `GL_VERTEX_SHADER` (value 0x8B31).
#[verifier::external_body]
fn vertex_shader_kind() -> (r: u32)
    ensures
        r == VERTEX_SHADER_KIND,
{
    gl::VERTEX_SHADER
}

/// Relies on the constant `gl::FRAGMENT_SHADER`, which the gl crate generates
/// from the Khronos registry entry `GL_FRAGMENT_SHADER` (value 0x8B30).
#[verifier::external_body]
fn fragment_shader_kind() -> (r: u32)
    ensures
        r == FRAGMENT_SHADER_KIND,
{
    gl::FRAGMENT_SHADER
}

} // verus!
