use vstd::prelude::*;

use crate::call::GlCall;
use crate::program::{
    attach_calls, build_calls, compile_calls, delete_shader_calls, link_calls, release_calls,
    supersede_calls, Program,
};

verus! {

/// Where a call of the link step stands in the order the driver requires:
/// attaching comes first, then linking, then deleting the shader objects.
pub open spec fn link_phase(c: GlCall) -> int {
    match c {
        GlCall::AttachShader { .. } => 0,
        GlCall::LinkProgram { .. } => 1,
        GlCall::DeleteShader { .. } => 2,
        _ => 3,
    }
}

/// Releasing one program never deletes the handle of another live program:
/// when no two programs share a non-zero handle, the calls that releasing `p`
/// asks for never name `q`'s handle.
pub proof fn lemma_release_spares_others(p: Program, q: Program)
    requires
        p.id() == 0 || p.id() != q.id(),
    ensures
        !release_calls(p.id()).contains(GlCall::DeleteProgram { program: q.id() }),
{
    if p.id() != 0 {
        assert(release_calls(p.id())[0] != GlCall::DeleteProgram { program: q.id() });
    }
}

/// Releasing twice is harmless: after the first release the program holds 0,
/// the second release asks for no call, the two together delete the handle at
/// most once, and handle 0 is never deleted.
pub proof fn lemma_release_twice(p: Program)
    ensures
        release_calls(0).len() == 0,
        release_calls(p.id()) + release_calls(0) == release_calls(p.id()),
        release_calls(p.id()).len() <= 1,
        !release_calls(p.id()).contains(GlCall::DeleteProgram { program: 0 }),
{
    assert(release_calls(p.id()) + release_calls(0) =~= release_calls(p.id()));
    if p.id() != 0 {
        assert(release_calls(p.id())[0] != GlCall::DeleteProgram { program: 0 });
    }
}

/// A builder with only the vertex stage set still links a program: the vertex
/// shader is attached, the program linked, and the shader deleted.
pub proof fn lemma_vertex_only_build(program: u32, vertex: u32)
    requires
        program != 0,
        vertex != 0,
    ensures
        build_calls(program, vertex, 0) == seq![
            GlCall::AttachShader { program, shader: vertex },
            GlCall::LinkProgram { program },
            GlCall::DeleteShader { shader: vertex },
        ],
{
    assert(build_calls(program, vertex, 0) =~= seq![
        GlCall::AttachShader { program, shader: vertex },
        GlCall::LinkProgram { program },
        GlCall::DeleteShader { shader: vertex },
    ]);
}

/// The link step keeps the order the driver requires: no shader is attached
/// after the link, and no shader object is deleted before the link or before
/// any attach.
pub proof fn lemma_build_order(program: u32, vertex: u32, fragment: u32)
    ensures
        forall|i: int, j: int|
            0 <= i < j < build_calls(program, vertex, fragment).len() ==> link_phase(
                #[trigger] build_calls(program, vertex, fragment)[i],
            ) <= link_phase(#[trigger] build_calls(program, vertex, fragment)[j]),
{
    let a = attach_calls(program, vertex) + attach_calls(program, fragment);
    let l = link_calls(program, vertex, fragment);
    let d = delete_shader_calls(vertex) + delete_shader_calls(fragment);
    let s = build_calls(program, vertex, fragment);
    assert(s =~= l + d);
    assert forall|k: int| 0 <= k < a.len() implies link_phase(#[trigger] a[k]) == 0 by {}
    assert forall|k: int| 0 <= k < l.len() implies link_phase(#[trigger] l[k]) <= 1 by {}
    assert forall|k: int| 0 <= k < d.len() implies link_phase(#[trigger] d[k]) == 2 by {}
    assert forall|i: int, j: int| 0 <= i < j < s.len() implies link_phase(#[trigger] s[i])
        <= link_phase(#[trigger] s[j]) by {
        if j < l.len() {
            if program != 0 {
                assert(l =~= a + seq![GlCall::LinkProgram { program }]);
                assert(s[i] == l[i]);
                assert(s[j] == l[j]);
                if j < a.len() {
                    assert(l[i] == a[i]);
                    assert(l[j] == a[j]);
                } else {
                    assert(l[i] == a[i] || i == a.len());
                }
            }
        } else {
            assert(s[j] == d[j - l.len()]);
            if i >= l.len() {
                assert(s[i] == d[i - l.len()]);
            } else {
                assert(s[i] == l[i]);
            }
        }
    }
}

/// The link step deletes every shader object that was set, so building leaks
/// none of them.
pub proof fn lemma_build_deletes_stages(program: u32, vertex: u32, fragment: u32)
    ensures
        vertex != 0 ==> build_calls(program, vertex, fragment).contains(
            GlCall::DeleteShader { shader: vertex },
        ),
        fragment != 0 ==> build_calls(program, vertex, fragment).contains(
            GlCall::DeleteShader { shader: fragment },
        ),
{
    let l = link_calls(program, vertex, fragment);
    let s = build_calls(program, vertex, fragment);
    if vertex != 0 {
        assert(s[l.len() as int] == GlCall::DeleteShader { shader: vertex });
    }
    if fragment != 0 {
        assert(s[s.len() - 1] == GlCall::DeleteShader { shader: fragment });
    }
}

/// The whole life of a two-stage program, from a fresh builder: each shader
/// gets its source and is compiled, both are attached, the program is linked,
/// and both shader objects are deleted, in that order.
pub proof fn lemma_two_stage_program(
    program: u32,
    vertex: u32,
    vertex_source: String,
    fragment: u32,
    fragment_source: String,
)
    requires
        program != 0,
        vertex != 0,
        fragment != 0,
    ensures
        supersede_calls(0, vertex) + compile_calls(vertex, vertex_source) + (supersede_calls(
            0,
            fragment,
        ) + compile_calls(fragment, fragment_source)) + build_calls(program, vertex, fragment)
            == seq![
            GlCall::ShaderSource { shader: vertex, source: vertex_source },
            GlCall::CompileShader { shader: vertex },
            GlCall::ShaderSource { shader: fragment, source: fragment_source },
            GlCall::CompileShader { shader: fragment },
            GlCall::AttachShader { program, shader: vertex },
            GlCall::AttachShader { program, shader: fragment },
            GlCall::LinkProgram { program },
            GlCall::DeleteShader { shader: vertex },
            GlCall::DeleteShader { shader: fragment },
        ],
{
    assert(supersede_calls(0, vertex) + compile_calls(vertex, vertex_source) + (supersede_calls(
        0,
        fragment,
    ) + compile_calls(fragment, fragment_source)) + build_calls(program, vertex, fragment)
        =~= seq![
        GlCall::ShaderSource { shader: vertex, source: vertex_source },
        GlCall::CompileShader { shader: vertex },
        GlCall::ShaderSource { shader: fragment, source: fragment_source },
        GlCall::CompileShader { shader: fragment },
        GlCall::AttachShader { program, shader: vertex },
        GlCall::AttachShader { program, shader: fragment },
        GlCall::LinkProgram { program },
        GlCall::DeleteShader { shader: vertex },
        GlCall::DeleteShader { shader: fragment },
    ]);
}

} // verus!
