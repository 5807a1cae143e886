use horus::pipeline::{
    Blend, ClearColor, Face, FixedFunction, FramePass, FrontFace, Topology, UniformSlot,
    DEFAULT_FRAGMENT_SOURCE, FRAGMENT_ENTRY, VERTEX_ENTRY, VERTEX_SOURCE,
};
use horus::uniforms::Uniforms;

#[test]
fn fixed_function_state() {
    let s = FixedFunction::full_screen();
    assert_eq!(s.topology, Topology::TriangleList);
    assert_eq!(s.front_face, FrontFace::Cw);
    assert_eq!(s.cull, Some(Face::Back));
    assert!(!s.depth_stencil);
    assert_eq!(s.sample_count, 1);
    assert_eq!(s.blend, Blend::Replace);
}

#[test]
fn one_uniform_block_for_the_fragment_stage() {
    let slot = UniformSlot::fragment_block();
    assert_eq!(slot.group, 0);
    assert_eq!(slot.binding, 0);
    assert!(slot.fragment_visible);
    assert!(!slot.vertex_visible);
    assert_eq!(slot.size, Uniforms::new(1, 1).to_bytes().len());
}

#[test]
fn the_pass_draws_one_triangle_over_black() {
    let pass = FramePass::full_screen();
    assert_eq!(pass.clear, ClearColor::Black);
    assert_eq!(pass.vertex_count, 3);
    assert_eq!(pass.instance_count, 1);
    assert_eq!(pass.uniform_group, UniformSlot::fragment_block().group);
}

#[test]
fn sources_define_their_entry_points() {
    assert_eq!(VERTEX_ENTRY, "vs_main");
    assert_eq!(FRAGMENT_ENTRY, "fs_main");
    assert!(VERTEX_SOURCE.contains("@vertex\nfn vs_main("));
    assert!(DEFAULT_FRAGMENT_SOURCE.contains("@fragment\nfn fs_main("));
    assert!(DEFAULT_FRAGMENT_SOURCE.contains("@group(0) @binding(0)\nvar<uniform> uniforms: Uniforms;"));
    assert!(!VERTEX_SOURCE.ends_with('\n'));
}
