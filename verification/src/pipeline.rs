//! The pipeline builder's output, as data: the vertex input layout that must
//! match the vertex record (position then color, each three 32-bit floats,
//! tightly packed), and the fixed pipeline description built around it. The
//! backend compiles the shader text and returns opaque handles; this module
//! pins down every parameter the build hands it.

use vstd::prelude::*;

verus! {

/// An opaque identifier for a texture format negotiated with the host
/// graphics stack; the session uses the first format the surface supports.
#[derive(Clone, Copy, Debug, PartialEq, Eq, Structural)]
pub struct SurfaceFormat(pub u32);

/// The data type of one vertex attribute.
#[derive(Clone, Copy, Debug, PartialEq, Eq, Structural)]
pub enum VertexFormat {
    Float32x2,
    Float32x3,
    Float32x4,
}

/// Whether a vertex buffer is stepped per vertex or per instance.
#[derive(Clone, Copy, Debug, PartialEq, Eq, Structural)]
pub enum StepMode {
    Vertex,
    Instance,
}

/// One attribute of the vertex record: where it starts inside the record,
/// which shader location reads it, and its data type.
#[derive(Clone, Copy, Debug, PartialEq, Eq, Structural)]
pub struct VertexAttribute {
    pub offset: u64,
    pub shader_location: u32,
    pub format: VertexFormat,
}

/// The vertex buffer layout: record stride, step rate, and the two
/// attributes of the vertex record, position then color.
#[derive(Clone, Copy, Debug, PartialEq, Eq, Structural)]
pub struct VertexLayout {
    pub array_stride: u64,
    pub step_mode: StepMode,
    pub position: VertexAttribute,
    pub color: VertexAttribute,
}

/// The layout of the vertex record `{ position: 3 x f32, color: 3 x f32 }`:
/// 24-byte stride, position packed at byte 0, color right after it at
/// byte 12, both read per vertex.
pub open spec fn spec_vertex_layout() -> VertexLayout {
    VertexLayout {
        array_stride: 24,
        step_mode: StepMode::Vertex,
        position: VertexAttribute { offset: 0, shader_location: 0, format: VertexFormat::Float32x3 },
        color: VertexAttribute { offset: 12, shader_location: 1, format: VertexFormat::Float32x3 },
    }
}

/// Describes the vertex buffer layout exactly as the vertex record is laid
/// out in memory.
pub fn vertex_layout() -> (l: VertexLayout)
    ensures
        l == spec_vertex_layout(),
{
    VertexLayout {
        array_stride: 24,
        step_mode: StepMode::Vertex,
        position: VertexAttribute { offset: 0, shader_location: 0, format: VertexFormat::Float32x3 },
        color: VertexAttribute { offset: 12, shader_location: 1, format: VertexFormat::Float32x3 },
    }
}

#[derive(Clone, Copy, Debug, PartialEq, Eq, Structural)]
pub enum PrimitiveTopology {
    PointList,
    LineList,
    TriangleList,
}

#[derive(Clone, Copy, Debug, PartialEq, Eq, Structural)]
pub enum FrontFace {
    Ccw,
    Cw,
}

#[derive(Clone, Copy, Debug, PartialEq, Eq, Structural)]
pub enum CullMode {
    NoCulling,
    Front,
    Back,
}

#[derive(Clone, Copy, Debug, PartialEq, Eq, Structural)]
pub enum PolygonMode {
    Fill,
    Line,
    Point,
}

/// How the one color target blends the fragment output over what is there.
#[derive(Clone, Copy, Debug, PartialEq, Eq, Structural)]
pub enum BlendMode {
    Replace,
    AlphaBlend,
}

/// The width of the indices the renderer binds the index buffer with.
#[derive(Clone, Copy, Debug, PartialEq, Eq, Structural)]
pub enum IndexFormat {
    Uint16,
    Uint32,
}

/// Everything the fixed render pipeline is built from, besides the shader
/// text itself: vertex input layout, primitive and raster state, sampling,
/// and the single color target.
#[derive(Clone, Copy, Debug, PartialEq, Eq, Structural)]
pub struct PipelinePlan {
    pub layout: VertexLayout,
    pub topology: PrimitiveTopology,
    pub front_face: FrontFace,
    pub cull_mode: CullMode,
    pub polygon_mode: PolygonMode,
    pub blend: BlendMode,
    pub sample_count: u32,
    pub has_depth_stencil: bool,
    pub target_format: SurfaceFormat,
}

/// The one pipeline this renderer ever builds: triangle list,
/// counter-clockwise front faces with back-face culling, filled polygons,
/// single-sampled, no depth/stencil attachment, and one color target in the
/// negotiated surface format with replace blending.
pub open spec fn spec_pipeline_plan(format: SurfaceFormat) -> PipelinePlan {
    PipelinePlan {
        layout: spec_vertex_layout(),
        topology: PrimitiveTopology::TriangleList,
        front_face: FrontFace::Ccw,
        cull_mode: CullMode::Back,
        polygon_mode: PolygonMode::Fill,
        blend: BlendMode::Replace,
        sample_count: 1,
        has_depth_stencil: false,
        target_format: format,
    }
}

/// Builds the fixed pipeline description for the given surface format.
pub fn build_pipeline_plan(format: SurfaceFormat) -> (p: PipelinePlan)
    ensures
        p == spec_pipeline_plan(format),
{
    PipelinePlan {
        layout: vertex_layout(),
        topology: PrimitiveTopology::TriangleList,
        front_face: FrontFace::Ccw,
        cull_mode: CullMode::Back,
        polygon_mode: PolygonMode::Fill,
        blend: BlendMode::Replace,
        sample_count: 1,
        has_depth_stencil: false,
        target_format: format,
    }
}

/// Law: the pipeline build is a function of the surface format alone, and the
/// vertex-attribute layout does not even depend on that: building twice, with
/// the same format or different ones, always yields the same layout —
/// position at byte 0 and color at byte 12, both three 32-bit floats.
pub proof fn lemma_pipeline_build_deterministic(f1: SurfaceFormat, f2: SurfaceFormat)
    ensures
        spec_pipeline_plan(f1).layout == spec_pipeline_plan(f2).layout,
        spec_pipeline_plan(f1).layout == spec_vertex_layout(),
        spec_vertex_layout().position.offset == 0,
        spec_vertex_layout().color.offset == 12,
        spec_vertex_layout().position.format is Float32x3,
        spec_vertex_layout().color.format is Float32x3,
        f1 == f2 ==> spec_pipeline_plan(f1) == spec_pipeline_plan(f2),
{
}

} // verus!
