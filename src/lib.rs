//! GPU program resources over OpenGL: shader stages, a builder that compiles
//! and links them, and an owning program handle that is released once.
//!
//! OpenGL's entry points are raw `unsafe` calls into the driver, so the library
//! does not make them itself. Each operation takes the handles that the driver
//! handed out and returns the exact list of [`GlCall`]s that the caller must
//! issue next, in order. The contracts state those lists, so the object
//! lifecycle (attach before link before delete, one delete per program, never a
//! delete of handle 0) is proved here, whatever drives the context.

mod call;
pub mod laws;
mod program;
mod stage;

pub use call::GlCall;
pub use program::{Program, ProgramBuilder, ShaderUnit};
pub use stage::{Stage, FRAGMENT_SHADER_KIND, VERTEX_SHADER_KIND};
