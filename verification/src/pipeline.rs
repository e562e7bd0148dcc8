//! The render pipeline: the two shader stages and the fixed-function state
//! around them.

use vstd::prelude::*;
use crate::binding::BindGroupLayout;
use crate::geometry::{IndexFormat, VertexBufferLayout};

verus! {

/// What the device said when the host had it compile the shader source
/// and make the pipeline. Both are the device's work; the host has them
/// done and reports how it went.
#[derive(Clone, Copy, Debug, PartialEq, Eq, Structural)]
pub enum PipelineCreation {
    /// The shader compiled and the pipeline was made.
    Created,
    /// The device rejected the shader source.
    ShaderRejected,
    /// The shader compiled, but the device rejected the pipeline: the
    /// shader lacks one of the two stages, or declares other inputs or
    /// bindings than the pipeline gives it.
    PipelineRejected,
}

/// How vertices are assembled into primitives.
#[derive(Clone, Copy, Debug, PartialEq, Eq, Structural)]
pub enum PrimitiveTopology {
    PointList,
    LineList,
    LineStrip,
    TriangleList,
    TriangleStrip,
}

/// Which winding marks the front of a triangle.
#[derive(Clone, Copy, Debug, PartialEq, Eq, Structural)]
pub enum FrontFace {
    Ccw,
    Cw,
}

/// A side of a triangle.
#[derive(Clone, Copy, Debug, PartialEq, Eq, Structural)]
pub enum Face {
    Front,
    Back,
}

/// How a triangle is filled.
#[derive(Clone, Copy, Debug, PartialEq, Eq, Structural)]
pub enum PolygonMode {
    Fill,
    Line,
    Point,
}

/// How primitives are assembled and rasterized.
#[derive(Clone, Copy, Debug, PartialEq, Eq)]
pub struct PrimitiveState {
    pub topology: PrimitiveTopology,
    pub strip_index_format: Option<IndexFormat>,
    pub front_face: FrontFace,
    pub cull_mode: Option<Face>,
    pub unclipped_depth: bool,
    pub polygon_mode: PolygonMode,
    pub conservative: bool,
}

/// How many samples a pixel has and which of them are written.
#[derive(Clone, Copy, Debug, PartialEq, Eq, Structural)]
pub struct MultisampleState {
    pub count: u32,
    pub mask: u64,
    pub alpha_to_coverage_enabled: bool,
}

/// How a fragment's color meets the color already in the target.
#[derive(Clone, Copy, Debug, PartialEq, Eq, Structural)]
pub enum BlendState {
    Replace,
    AlphaBlending,
    PremultipliedAlphaBlending,
}

/// The color channels that are written, as a set of bits with the GPU
/// interface's bit values.
#[derive(Clone, Copy, Debug, PartialEq, Eq, Structural)]
pub struct ColorWrites {
    pub bits: u32,
}

/// All four channels: red, green, blue and alpha.
pub const COLOR_WRITE_ALL: u32 = 15;

/// The color target of the fragment stage.
#[derive(Clone, Copy, Debug, PartialEq, Eq)]
pub struct ColorTargetState {
    pub format: wgpu::TextureFormat,
    pub blend: Option<BlendState>,
    pub write_mask: ColorWrites,
}

/// Everything a render pipeline is created with. There is no depth or
/// stencil test, no multiview and no push constant, and one bind group
/// layout.
#[derive(Clone, Debug, PartialEq, Eq)]
pub struct PipelineDescriptor {
    pub vertex_entry_point: &'static str,
    pub fragment_entry_point: &'static str,
    pub vertex_layout: VertexBufferLayout,
    pub bind_group_layout: BindGroupLayout,
    pub primitive: PrimitiveState,
    pub depth_stencil: bool,
    pub multisample: MultisampleState,
    pub target: ColorTargetState,
}

/// The fixed primitive state: a list of triangles, front faces wound
/// counter-clockwise, back faces culled, filled.
pub open spec fn triangle_list_culling_back() -> PrimitiveState {
    PrimitiveState {
        topology: PrimitiveTopology::TriangleList,
        strip_index_format: None,
        front_face: FrontFace::Ccw,
        cull_mode: Some(Face::Back),
        unclipped_depth: false,
        polygon_mode: PolygonMode::Fill,
        conservative: false,
    }
}

/// One sample per pixel, every sample written.
pub open spec fn single_sample() -> MultisampleState {
    MultisampleState { count: 1, mask: 0xFFFF_FFFF_FFFF_FFFF, alpha_to_coverage_enabled: false }
}

/// A color target of `format` whose color is replaced, all four channels
/// of it.
pub open spec fn replacing_target(format: wgpu::TextureFormat) -> ColorTargetState {
    ColorTargetState {
        format,
        blend: Some(BlendState::Replace),
        write_mask: ColorWrites { bits: COLOR_WRITE_ALL },
    }
}

/// `descriptor` is the one pipeline of this renderer, drawing to a target
/// of `format`.
pub open spec fn fixed_pipeline(descriptor: PipelineDescriptor, format: wgpu::TextureFormat) -> bool {
    &&& descriptor.vertex_entry_point@ == "vs_main"@
    &&& descriptor.fragment_entry_point@ == "fs_main"@
    &&& descriptor.vertex_layout.reads_vertices()
    &&& descriptor.bind_group_layout.follows_scheme()
    &&& descriptor.primitive == triangle_list_culling_back()
    &&& !descriptor.depth_stencil
    &&& descriptor.multisample == single_sample()
    &&& descriptor.target == replacing_target(format)
}

/// Why there is no pipeline. Each of these ends startup.
#[derive(Clone, Copy, Debug, PartialEq, Eq, Structural)]
pub enum CompileError {
    /// The vertex buffers are not laid out as the vertex stage reads them.
    VertexLayoutMismatch,
    /// The bind group layout is not what the fragment stage reads.
    BindingMismatch,
    /// The device rejected the shader source.
    ShaderRejected,
    /// The device rejected the pipeline made from the compiled shader.
    PipelineRejected,
}

/// What stands in the way of describing the pipeline, if anything: a
/// vertex layout that is not the one of the vertex record, or else a bind
/// group layout that is not the fixed binding scheme.
pub open spec fn descriptor_fault(
    vertex_layout: VertexBufferLayout,
    bind_group_layout: BindGroupLayout,
) -> Option<CompileError> {
    if !vertex_layout.reads_vertices() {
        Some(CompileError::VertexLayoutMismatch)
    } else if !bind_group_layout.follows_scheme() {
        Some(CompileError::BindingMismatch)
    } else {
        None
    }
}

/// What stands in the way of a pipeline, if anything: what stands in the
/// way of describing it, or else what the device rejected.
pub open spec fn pipeline_fault(
    creation: PipelineCreation,
    vertex_layout: VertexBufferLayout,
    bind_group_layout: BindGroupLayout,
) -> Option<CompileError> {
    match descriptor_fault(vertex_layout, bind_group_layout) {
        Some(fault) => Some(fault),
        None => match creation {
            PipelineCreation::Created => None,
            PipelineCreation::ShaderRejected => Some(CompileError::ShaderRejected),
            PipelineCreation::PipelineRejected => Some(CompileError::PipelineRejected),
        },
    }
}

/// The pipeline that the device made. It is what `fixed_pipeline`
/// describes and does not change.
pub struct PipelineState {
    descriptor: PipelineDescriptor,
}

impl PipelineState {
    #[verifier::type_invariant]
    spec fn inv(self) -> bool {
        fixed_pipeline(self.descriptor, self.descriptor.target.format)
    }

    /// What the pipeline is created with.
    pub closed spec fn spec_descriptor(&self) -> &PipelineDescriptor {
        &self.descriptor
    }

    /// The pipeline is the fixed one for its target format.
    pub open spec fn wf(&self) -> bool {
        fixed_pipeline(*self.spec_descriptor(), self.spec_descriptor().target.format)
    }

    /// What the pipeline is created with.
    #[verifier::when_used_as_spec(spec_descriptor)]
    pub fn descriptor(&self) -> (descriptor: &PipelineDescriptor)
        ensures
            descriptor == self.spec_descriptor(),
            self.wf(),
    {
        proof {
            use_type_invariant(self);
        }
        &self.descriptor
    }
}

/// Describes the pipeline for the device: the vertex stage `vs_main` and
/// the fragment stage `fs_main` of the one shader module, around the
/// fixed-function state, drawing to a target of the surface's format. The
/// vertex layout must be the one of `Vertex::desc`, and the bind group
/// layout the fixed binding scheme that the fragment stage reads.
pub fn pipeline_descriptor(
    surface_format: wgpu::TextureFormat,
    vertex_layout: VertexBufferLayout,
    bind_group_layout: BindGroupLayout,
) -> (made: Result<PipelineDescriptor, CompileError>)
    ensures
        match descriptor_fault(vertex_layout, bind_group_layout) {
            Some(fault) => made == Err::<PipelineDescriptor, CompileError>(fault),
            None => {
                &&& made matches Ok(descriptor)
                &&& fixed_pipeline(descriptor, surface_format)
                &&& descriptor.vertex_layout == vertex_layout
                &&& descriptor.bind_group_layout == bind_group_layout
            },
        },
{
    if !vertex_layout.is_vertex_layout() {
        return Err(CompileError::VertexLayoutMismatch);
    }
    if !bind_group_layout.matches_scheme() {
        return Err(CompileError::BindingMismatch);
    }
    Ok(
        PipelineDescriptor {
            vertex_entry_point: "vs_main",
            fragment_entry_point: "fs_main",
            vertex_layout,
            bind_group_layout,
            primitive: PrimitiveState {
                topology: PrimitiveTopology::TriangleList,
                strip_index_format: None,
                front_face: FrontFace::Ccw,
                cull_mode: Some(Face::Back),
                unclipped_depth: false,
                polygon_mode: PolygonMode::Fill,
                conservative: false,
            },
            depth_stencil: false,
            multisample: MultisampleState {
                count: 1,
                mask: 0xFFFF_FFFF_FFFF_FFFF,
                alpha_to_coverage_enabled: false,
            },
            target: ColorTargetState {
                format: surface_format,
                blend: Some(BlendState::Replace),
                write_mask: ColorWrites { bits: COLOR_WRITE_ALL },
            },
        },
    )
}

/// Builds the pipeline once the device has answered. There is a pipeline
/// when it can be described and the device made it from that description;
/// a shader that does not compile, or that does not fit the pipeline,
/// gives none. What stands in the way is said by `pipeline_fault`.
pub fn build_pipeline(
    creation: PipelineCreation,
    surface_format: wgpu::TextureFormat,
    vertex_layout: VertexBufferLayout,
    bind_group_layout: BindGroupLayout,
) -> (made: Result<PipelineState, CompileError>)
    ensures
        match pipeline_fault(creation, vertex_layout, bind_group_layout) {
            Some(fault) => made == Err::<PipelineState, CompileError>(fault),
            None => {
                &&& made matches Ok(pipeline)
                &&& pipeline.wf()
                &&& fixed_pipeline(*pipeline.descriptor(), surface_format)
                &&& pipeline.descriptor().vertex_layout == vertex_layout
                &&& pipeline.descriptor().bind_group_layout == bind_group_layout
            },
        },
{
    let descriptor = match pipeline_descriptor(surface_format, vertex_layout, bind_group_layout) {
        Ok(descriptor) => descriptor,
        Err(fault) => {
            return Err(fault);
        },
    };
    match creation {
        PipelineCreation::Created => Ok(PipelineState { descriptor }),
        PipelineCreation::ShaderRejected => Err(CompileError::ShaderRejected),
        PipelineCreation::PipelineRejected => Err(CompileError::PipelineRejected),
    }
}

} // verus!
