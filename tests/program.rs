use shaders::{GlCall, Program, ShaderUnit, Stage};

const VERTEX_SOURCE: &str =
    "#version 330 core\nlayout(location=0) in vec3 aPos;\nvoid main(){gl_Position=vec4(aPos,1.0);}";
const FRAGMENT_SOURCE: &str =
    "#version 330 core\nout vec4 FragColor;\nvoid main(){FragColor=vec4(1.0,0.5,0.2,1.0);}";

fn two_stage(vertex: u32, fragment: u32, program: u32) -> (Program, Vec<GlCall>) {
    let mut calls = Vec::new();
    let (b, mut c) = Program::builder().vertex(vertex, VERTEX_SOURCE.to_owned());
    calls.append(&mut c);
    let (b, mut c) = b.fragment(fragment, FRAGMENT_SOURCE.to_owned());
    calls.append(&mut c);
    let (p, mut c) = b.build(program);
    calls.append(&mut c);
    (p, calls)
}

#[test]
fn build_then_handle_is_nonzero() {
    let (p, _) = two_stage(1, 2, 3);
    assert_ne!(p.handle(), 0);
    assert_eq!(p.handle(), 3);
}

#[test]
fn handle_is_stable_across_calls() {
    let (p, _) = two_stage(4, 5, 6);
    let first = p.handle();
    let second = p.handle();
    let third = p.handle();
    assert_eq!(first, 6);
    assert_eq!(second, first);
    assert_eq!(third, first);
}

#[test]
fn release_leaves_other_program_alone() {
    let (mut a, _) = two_stage(1, 2, 3);
    let (b, _) = two_stage(4, 5, 6);
    let calls = a.release();
    assert_eq!(calls, vec![GlCall::DeleteProgram { program: 3 }]);
    assert_eq!(a.handle(), 0);
    assert_eq!(b.handle(), 6);
}

#[test]
fn release_twice_deletes_once() {
    let (mut p, _) = two_stage(1, 2, 9);
    assert_eq!(p.release(), vec![GlCall::DeleteProgram { program: 9 }]);
    assert_eq!(p.release(), vec![]);
    assert_eq!(p.handle(), 0);
}

#[test]
fn release_of_unlinked_program_asks_nothing() {
    let (mut p, _) = Program::builder().build(0);
    assert_eq!(p.handle(), 0);
    assert_eq!(p.release(), vec![]);
}

#[test]
fn vertex_only_build_still_links() {
    let (b, compile) = Program::builder().vertex(7, VERTEX_SOURCE.to_owned());
    assert_eq!(
        compile,
        vec![
            GlCall::ShaderSource { shader: 7, source: VERTEX_SOURCE.to_owned() },
            GlCall::CompileShader { shader: 7 },
        ]
    );
    let (p, calls) = b.build(8);
    assert_eq!(p.handle(), 8);
    assert_eq!(
        calls,
        vec![
            GlCall::AttachShader { program: 8, shader: 7 },
            GlCall::LinkProgram { program: 8 },
            GlCall::DeleteShader { shader: 7 },
        ]
    );
}

#[test]
fn triangle_program_plan() {
    let (p, calls) = two_stage(1, 2, 3);
    assert_eq!(p.handle(), 3);
    assert_eq!(
        calls,
        vec![
            GlCall::ShaderSource { shader: 1, source: VERTEX_SOURCE.to_owned() },
            GlCall::CompileShader { shader: 1 },
            GlCall::ShaderSource { shader: 2, source: FRAGMENT_SOURCE.to_owned() },
            GlCall::CompileShader { shader: 2 },
            GlCall::AttachShader { program: 3, shader: 1 },
            GlCall::AttachShader { program: 3, shader: 2 },
            GlCall::LinkProgram { program: 3 },
            GlCall::DeleteShader { shader: 1 },
            GlCall::DeleteShader { shader: 2 },
        ]
    );
}

#[test]
fn empty_builder_links_bare_program() {
    let (p, calls) = Program::builder().build(5);
    assert_eq!(p.handle(), 5);
    assert_eq!(calls, vec![GlCall::LinkProgram { program: 5 }]);
}

#[test]
fn failed_program_creation_only_deletes_shaders() {
    let (p, calls) = two_stage(1, 2, 0);
    assert_eq!(p.handle(), 0);
    assert_eq!(
        &calls[4..],
        &[GlCall::DeleteShader { shader: 1 }, GlCall::DeleteShader { shader: 2 }]
    );
}

#[test]
fn replaced_vertex_shader_is_deleted() {
    let (b, _) = Program::builder().vertex(1, "a".to_owned());
    let (b, calls) = b.vertex(2, "b".to_owned());
    assert_eq!(
        calls,
        vec![
            GlCall::DeleteShader { shader: 1 },
            GlCall::ShaderSource { shader: 2, source: "b".to_owned() },
            GlCall::CompileShader { shader: 2 },
        ]
    );
    let (_, calls) = b.build(3);
    assert_eq!(calls[0], GlCall::AttachShader { program: 3, shader: 2 });
}

#[test]
fn replaced_fragment_shader_is_deleted() {
    let (b, _) = Program::builder().fragment(4, "a".to_owned());
    let (_, calls) = b.fragment(5, "b".to_owned());
    assert_eq!(calls[0], GlCall::DeleteShader { shader: 4 });
    assert_eq!(calls.len(), 3);
}

#[test]
fn failed_shader_creation_sends_no_source() {
    let (b, calls) = Program::builder().fragment(0, FRAGMENT_SOURCE.to_owned());
    assert_eq!(calls, vec![]);
    let (_, calls) = b.build(2);
    assert_eq!(calls, vec![GlCall::LinkProgram { program: 2 }]);
}

#[test]
fn compile_unit_keeps_stage_and_handle() {
    let (unit, calls) = ShaderUnit::compile(Stage::Fragment, 11, "src".to_owned());
    assert_eq!(unit.handle(), 11);
    assert_eq!(unit.stage(), Stage::Fragment);
    assert_eq!(calls.len(), 2);
    let unset = ShaderUnit::unset(Stage::Vertex);
    assert_eq!(unset.handle(), 0);
}

#[test]
fn stage_kinds_are_the_gl_enums() {
    assert_eq!(Stage::Vertex.kind(), 0x8B31);
    assert_eq!(Stage::Fragment.kind(), 0x8B30);
}
