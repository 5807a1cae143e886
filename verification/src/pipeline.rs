//! The fixed render pipeline: a vertex stage that covers the surface with one
//! triangle, the fragment stage that the user supplies, and one uniform block
//! for the fragment stage to read.

use crate::uniforms::UNIFORM_BYTES;
use vstd::prelude::*;

verus! {

/// Entry point of the vertex stage.
pub const VERTEX_ENTRY: &'static str = "vs_main";

/// Entry point that a fragment program has to provide.
pub const FRAGMENT_ENTRY: &'static str = "fs_main";

/// The vertex stage. It reads no buffer: from the index of each of its three
/// vertices it makes a corner of a triangle that reaches beyond the clip
/// volume on two sides, so that what is left of it after clipping is the whole
/// surface.
pub const VERTEX_SOURCE: &'static str = "\
struct VertexInput {
    @builtin(vertex_index) vertex_index: u32,
};
struct VertexOutput {
    @builtin(position) position: vec4<f32>,
};
@vertex
fn vs_main(in: VertexInput) -> VertexOutput {
    // a single triangle that covers the entire surface
    var vertices = array<vec2<f32>, 3>(
        vec2<f32>(-1., 1.),
        vec2<f32>(3., 1.),
        vec2<f32>(-1., -3.),
    );
    var out: VertexOutput;
    out.position = vec4<f32>(vertices[in.vertex_index], 0., 1.);
    return out;
}\
";

/// The fragment program that runs when the user names none, and the text of
/// a starter file: it colours each pixel by its position on the surface.
pub const DEFAULT_FRAGMENT_SOURCE: &'static str = "\
struct VertexOutput {
    @builtin(position) position: vec4<f32>,
};

struct Uniforms {
    mouse: vec2<f32>,
    resolution: vec2<f32>,
    time: f32,
};

@group(0) @binding(0)
var<uniform> uniforms: Uniforms;

@fragment
fn fs_main(in: VertexOutput) -> @location(0) vec4<f32> {
    // Horus uses the same uniforms as thebookofshaders.com and shadertoy.com
    // `mouse` and `resolution` are in pixel coordinates
    // `time` is the number of seconds since program start
    let normalized = in.position.xy / uniforms.resolution;
    return vec4<f32>(normalized.rg, 0., 1.);
}\
";

/// How vertices are assembled into primitives.
#[derive(Clone, Copy, Debug, PartialEq, Eq, Structural)]
pub enum Topology {
    PointList,
    LineList,
    LineStrip,
    TriangleList,
    TriangleStrip,
}

/// The winding that marks the front of a triangle.
#[derive(Clone, Copy, Debug, PartialEq, Eq, Structural)]
pub enum FrontFace {
    Ccw,
    Cw,
}

/// A side of a triangle.
#[derive(Clone, Copy, Debug, PartialEq, Eq, Structural)]
pub enum Face {
    Front,
    Back,
}

/// How the output of the fragment stage is combined with what the target
/// already holds.
#[derive(Clone, Copy, Debug, PartialEq, Eq, Structural)]
pub enum Blend {
    /// The output overwrites the target.
    Replace,
    AlphaBlending,
    PremultipliedAlphaBlending,
}

/// A colour to clear the target to.
#[derive(Clone, Copy, Debug, PartialEq, Eq, Structural)]
pub enum ClearColor {
    Transparent,
    Black,
    White,
    Red,
    Green,
    Blue,
}

/// The fixed-function state of the pipeline.
#[derive(Clone, Copy, Debug, PartialEq, Eq, Structural)]
pub struct FixedFunction {
    pub topology: Topology,
    pub front_face: FrontFace,
    /// The side that is not drawn, if any.
    pub cull: Option<Face>,
    pub depth_stencil: bool,
    pub sample_count: u32,
    pub blend: Blend,
}

/// Where the uniform block is bound and who may read it.
#[derive(Clone, Copy, Debug, PartialEq, Eq, Structural)]
pub struct UniformSlot {
    pub group: u32,
    pub binding: u32,
    pub vertex_visible: bool,
    pub fragment_visible: bool,
    /// Size of the buffer behind the binding, in bytes.
    pub size: usize,
}

/// The one render pass of a frame.
#[derive(Clone, Copy, Debug, PartialEq, Eq, Structural)]
pub struct FramePass {
    /// What the target is cleared to before the draw.
    pub clear: ClearColor,
    pub vertex_count: u32,
    pub instance_count: u32,
    /// The bind group slot that holds the uniform block.
    pub uniform_group: u32,
}

impl FixedFunction {
    /// A list of triangles whose front winds clockwise, as the triangle of the
    /// vertex stage does; backs culled; no depth or stencil test; one sample
    /// per pixel; the fragment output replaces the target.
    pub open spec fn spec_full_screen() -> FixedFunction {
        FixedFunction {
            topology: Topology::TriangleList,
            front_face: FrontFace::Cw,
            cull: Some(Face::Back),
            depth_stencil: false,
            sample_count: 1,
            blend: Blend::Replace,
        }
    }

    /// The fixed-function state of the runner's pipeline.
    #[verifier::when_used_as_spec(spec_full_screen)]
    pub fn full_screen() -> (state: FixedFunction)
        ensures
            state == FixedFunction::spec_full_screen(),
    {
        FixedFunction {
            topology: Topology::TriangleList,
            front_face: FrontFace::Cw,
            cull: Some(Face::Back),
            depth_stencil: false,
            sample_count: 1,
            blend: Blend::Replace,
        }
    }
}

impl UniformSlot {
    /// Binding 0 of group 0, read by the fragment stage only, as large as the
    /// uniform block.
    pub open spec fn spec_fragment_block() -> UniformSlot {
        UniformSlot {
            group: 0,
            binding: 0,
            vertex_visible: false,
            fragment_visible: true,
            size: UNIFORM_BYTES,
        }
    }

    /// The single entry of the pipeline's bind group layout.
    #[verifier::when_used_as_spec(spec_fragment_block)]
    pub fn fragment_block() -> (slot: UniformSlot)
        ensures
            slot == UniformSlot::spec_fragment_block(),
    {
        UniformSlot {
            group: 0,
            binding: 0,
            vertex_visible: false,
            fragment_visible: true,
            size: UNIFORM_BYTES,
        }
    }
}

impl FramePass {
    /// Clear to black, then draw the three vertices of the covering triangle
    /// once, with the uniform block bound at group 0.
    pub open spec fn spec_full_screen() -> FramePass {
        FramePass { clear: ClearColor::Black, vertex_count: 3, instance_count: 1, uniform_group: 0 }
    }

    /// The pass that every frame records.
    #[verifier::when_used_as_spec(spec_full_screen)]
    pub fn full_screen() -> (pass: FramePass)
        ensures
            pass == FramePass::spec_full_screen(),
    {
        FramePass { clear: ClearColor::Black, vertex_count: 3, instance_count: 1, uniform_group: 0 }
    }
}

} // verus!
