use vstd::prelude::*;

use crate::call::GlCall;
use crate::stage::Stage;

verus! {

/// Calls that give a freshly created shader object its source and compile it.
/// A handle of 0 means the driver created nothing, so there is nothing to send.
pub open spec fn compile_calls(shader: u32, source: String) -> Seq<GlCall> {
    if shader == 0 {
        seq![]
    } else {
        seq![GlCall::ShaderSource { shader, source }, GlCall::CompileShader { shader }]
    }
}

/// Calls that dispose of a shader object that a new one of the same stage
/// replaces before it was ever linked.
pub open spec fn supersede_calls(previous: u32, next: u32) -> Seq<GlCall> {
    if previous != 0 && previous != next {
        seq![GlCall::DeleteShader { shader: previous }]
    } else {
        seq![]
    }
}

/// The attach call for one stage, made only for a real program and a set stage.
pub open spec fn attach_calls(program: u32, shader: u32) -> Seq<GlCall> {
    if program != 0 && shader != 0 {
        seq![GlCall::AttachShader { program, shader }]
    } else {
        seq![]
    }
}

/// The delete call for one stage's shader object, made only for a set stage.
pub open spec fn delete_shader_calls(shader: u32) -> Seq<GlCall> {
    if shader != 0 {
        seq![GlCall::DeleteShader { shader }]
    } else {
        seq![]
    }
}

/// Attach both set stages to the program and link it; nothing for handle 0.
pub open spec fn link_calls(program: u32, vertex: u32, fragment: u32) -> Seq<GlCall> {
    if program != 0 {
        attach_calls(program, vertex) + attach_calls(program, fragment)
            + seq![GlCall::LinkProgram { program }]
    } else {
        seq![]
    }
}

/// The whole link step: attach, link, then delete the shader objects, which
/// the linked program no longer needs.
pub open spec fn build_calls(program: u32, vertex: u32, fragment: u32) -> Seq<GlCall> {
    link_calls(program, vertex, fragment) + delete_shader_calls(vertex) + delete_shader_calls(
        fragment,
    )
}

/// Calls that release a program handle: one delete, or none for handle 0.
pub open spec fn release_calls(program: u32) -> Seq<GlCall> {
    if program != 0 {
        seq![GlCall::DeleteProgram { program }]
    } else {
        seq![]
    }
}

/// One compiled shader object of a given stage; handle 0 stands for a stage
/// that is unset (never compiled), which is never attached.
pub struct ShaderUnit {
    handle: u32,
    stage: Stage,
}

impl ShaderUnit {
    pub closed spec fn id(self) -> u32 {
        self.handle
    }

    pub closed spec fn stage_of(self) -> Stage {
        self.stage
    }

    /// An unset unit of the given stage.
    pub fn unset(stage: Stage) -> (r: ShaderUnit)
        ensures
            r.id() == 0,
            r.stage_of() == stage,
    {
        ShaderUnit { handle: 0, stage }
    }

    /// Takes the shader object that `glCreateShader(stage.kind())` returned
    /// and gives the calls that submit `source` to it as a single string and
    /// compile it. Compile status is not queried.
    pub fn compile(stage: Stage, shader: u32, source: String) -> (r: (ShaderUnit, Vec<GlCall>))
        ensures
            r.0.id() == shader,
            r.0.stage_of() == stage,
            r.1@ == compile_calls(shader, source),
    {
        let mut calls: Vec<GlCall> = Vec::new();
        if shader != 0 {
            calls.push(GlCall::ShaderSource { shader, source });
            calls.push(GlCall::CompileShader { shader });
        }
        (ShaderUnit { handle: shader, stage }, calls)
    }

    /// The shader object's handle; 0 when unset.
    pub fn handle(&self) -> (r: u32)
        ensures
            r == self.id(),
    {
        self.handle
    }

    /// The stage this unit was made for.
    pub fn stage(&self) -> (r: Stage)
        ensures
            r == self.stage_of(),
    {
        self.stage
    }
}

/// A linked GPU program that this value owns. Its handle is 0 before a
/// successful link or after release; otherwise no other live `Program` holds
/// it, since the type cannot be copied.
pub struct Program {
    handle: u32,
}

impl Program {
    pub closed spec fn id(self) -> u32 {
        self.handle
    }

    /// A builder with both stages unset.
    pub fn builder() -> (r: ProgramBuilder)
        ensures
            r.wf(),
            r.vertex_id() == 0,
            r.fragment_id() == 0,
    {
        ProgramBuilder {
            vertex: ShaderUnit::unset(Stage::Vertex),
            fragment: ShaderUnit::unset(Stage::Fragment),
        }
    }

    /// The program handle to bind with `glUseProgram`. Reading it changes
    /// nothing, so it is the same on every call until the program is released.
    pub fn handle(&self) -> (r: u32)
        ensures
            r == self.id(),
    {
        self.handle
    }

    /// Gives up the handle: returns the one delete call it needs, or no call
    /// when it is 0, and leaves the program at 0 so that a second release asks
    /// for nothing.
    pub fn release(&mut self) -> (r: Vec<GlCall>)
        ensures
            final(self).id() == 0,
            r@ == release_calls(old(self).id()),
            !r@.contains(GlCall::DeleteProgram { program: 0 }),
    {
        let mut calls: Vec<GlCall> = Vec::new();
        if self.handle != 0 {
            calls.push(GlCall::DeleteProgram { program: self.handle });
        }
        self.handle = 0;
        proof {
            if old(self).id() != 0 {
                assert(calls@[0] != GlCall::DeleteProgram { program: 0 });
            }
        }
        calls
    }
}

/// Collects the vertex and fragment stages of a program before it is linked.
/// Either stage may be left unset: the program is linked with what is there.
pub struct ProgramBuilder {
    vertex: ShaderUnit,
    fragment: ShaderUnit,
}

impl ProgramBuilder {
    /// Each slot holds a unit of its own stage.
    pub closed spec fn wf(self) -> bool {
        &&& self.vertex.stage_of() == Stage::Vertex
        &&& self.fragment.stage_of() == Stage::Fragment
    }

    pub closed spec fn vertex_id(self) -> u32 {
        self.vertex.id()
    }

    pub closed spec fn fragment_id(self) -> u32 {
        self.fragment.id()
    }

    /// Sets the vertex stage to `shader`, the object that
    /// `glCreateShader(Stage::Vertex.kind())` returned, compiled from `source`.
    /// A vertex shader that this replaces is deleted first.
    pub fn vertex(self, shader: u32, source: String) -> (r: (ProgramBuilder, Vec<GlCall>))
        requires
            self.wf(),
        ensures
            r.0.wf(),
            r.0.vertex_id() == shader,
            r.0.fragment_id() == self.fragment_id(),
            r.1@ == supersede_calls(self.vertex_id(), shader) + compile_calls(shader, source),
    {
        let ProgramBuilder { vertex, fragment } = self;
        let mut calls = superseded(&vertex, shader);
        let (unit, mut compiled) = ShaderUnit::compile(Stage::Vertex, shader, source);
        calls.append(&mut compiled);
        (ProgramBuilder { vertex: unit, fragment }, calls)
    }

    /// Sets the fragment stage, as `vertex` does the vertex stage.
    pub fn fragment(self, shader: u32, source: String) -> (r: (ProgramBuilder, Vec<GlCall>))
        requires
            self.wf(),
        ensures
            r.0.wf(),
            r.0.fragment_id() == shader,
            r.0.vertex_id() == self.vertex_id(),
            r.1@ == supersede_calls(self.fragment_id(), shader) + compile_calls(shader, source),
    {
        let ProgramBuilder { vertex, fragment } = self;
        let mut calls = superseded(&fragment, shader);
        let (unit, mut compiled) = ShaderUnit::compile(Stage::Fragment, shader, source);
        calls.append(&mut compiled);
        (ProgramBuilder { vertex, fragment: unit }, calls)
    }

    /// Links the collected stages into `program`, the object that
    /// `glCreateProgram` returned, and gives the calls for it: attach each set
    /// stage, link, then delete both shader objects. Link status is not
    /// queried. A program handle of 0 yields a `Program` of handle 0, and only
    /// the shader objects are deleted.
    pub fn build(self, program: u32) -> (r: (Program, Vec<GlCall>))
        requires
            self.wf(),
        ensures
            r.0.id() == program,
            program != 0 ==> r.0.id() != 0,
            r.1@ == build_calls(program, self.vertex_id(), self.fragment_id()),
    {
        let v = self.vertex.handle();
        let f = self.fragment.handle();
        let mut calls: Vec<GlCall> = Vec::new();
        if program != 0 {
            if v != 0 {
                calls.push(GlCall::AttachShader { program, shader: v });
            }
            if f != 0 {
                calls.push(GlCall::AttachShader { program, shader: f });
            }
            calls.push(GlCall::LinkProgram { program });
        }
        assert(calls@ == link_calls(program, v, f));
        if v != 0 {
            calls.push(GlCall::DeleteShader { shader: v });
        }
        assert(calls@ == link_calls(program, v, f) + delete_shader_calls(v));
        if f != 0 {
            calls.push(GlCall::DeleteShader { shader: f });
        }
        (Program { handle: program }, calls)
    }
}

/// The delete call for `unit`'s shader object when `next` replaces it.
fn superseded(unit: &ShaderUnit, next: u32) -> (r: Vec<GlCall>)
    ensures
        r@ == supersede_calls(unit.id(), next),
{
    let mut calls: Vec<GlCall> = Vec::new();
    let previous = unit.handle();
    if previous != 0 && previous != next {
        calls.push(GlCall::DeleteShader { shader: previous });
    }
    calls
}

} // verus!
