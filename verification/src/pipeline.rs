//! Graphics-pipeline description: fixed-function state, the vertex layout,
//! and the baked viewport and scissor matching the swapchain extent.

use vstd::prelude::*;
use crate::swapchain::Extent2d;

verus! {

/// Format code of three 32-bit float channels, for positions and colors.
pub const FORMAT_RGB32_SFLOAT: u32 = 106;

/// Format code of two 32-bit float channels, for texture coordinates.
pub const FORMAT_RG32_SFLOAT: u32 = 103;

/// Byte stride of one vertex: three position floats, three color floats,
/// two texture-coordinate floats.
pub const VERTEX_STRIDE: u32 = 32;

/// Primitive topology of the draw stream.
#[derive(Clone, Copy, PartialEq, Eq, Structural, Debug)]
pub enum Topology {
    TriangleList,
}

/// How primitives are rasterized.
#[derive(Clone, Copy, PartialEq, Eq, Structural, Debug)]
pub enum PolygonMode {
    Fill,
    Line,
}

/// Which faces are culled.
#[derive(Clone, Copy, PartialEq, Eq, Structural, Debug)]
pub enum CullFace {
    NoCulling,
    Front,
    Back,
}

/// Which winding counts as front-facing.
#[derive(Clone, Copy, PartialEq, Eq, Structural, Debug)]
pub enum FrontFace {
    Clockwise,
    CounterClockwise,
}

/// The depth comparison applied when the depth test is on.
#[derive(Clone, Copy, PartialEq, Eq, Structural, Debug)]
pub enum CompareOp {
    Less,
    LessEqual,
    Always,
}

/// One vertex attribute as the pipeline declares it.
#[derive(Clone, Copy, PartialEq, Eq, Structural, Debug)]
pub struct VertexAttribute {
    /// Shader input location.
    pub location: u32,
    /// Vertex-buffer binding the attribute reads from.
    pub binding: u32,
    /// Format code of the attribute.
    pub format: u32,
    /// Byte offset within one vertex.
    pub offset: u32,
}

/// A viewport or scissor rectangle, anchored at the origin.
#[derive(Clone, Copy, PartialEq, Eq, Structural, Debug)]
pub struct Rect {
    pub x: i16,
    pub y: i16,
    pub w: i16,
    pub h: i16,
}

/// The vertex attributes of the mesh: position and color as three floats
/// each, texture coordinates as two floats, all in binding 0, packed
/// back-to-back.
pub open spec fn spec_vertex_attributes() -> Seq<VertexAttribute> {
    seq![
        VertexAttribute { location: 0, binding: 0, format: FORMAT_RGB32_SFLOAT, offset: 0 },
        VertexAttribute { location: 1, binding: 0, format: FORMAT_RGB32_SFLOAT, offset: 12 },
        VertexAttribute { location: 2, binding: 0, format: FORMAT_RG32_SFLOAT, offset: 24 },
    ]
}

/// Declare the mesh's vertex attributes.
pub fn vertex_attributes() -> (r: Vec<VertexAttribute>)
    ensures
        r@ == spec_vertex_attributes(),
{
    let mut r: Vec<VertexAttribute> = Vec::new();
    r.push(VertexAttribute { location: 0, binding: 0, format: FORMAT_RGB32_SFLOAT, offset: 0 });
    r.push(VertexAttribute { location: 1, binding: 0, format: FORMAT_RGB32_SFLOAT, offset: 12 });
    r.push(VertexAttribute { location: 2, binding: 0, format: FORMAT_RG32_SFLOAT, offset: 24 });
    proof {
        assert(r@ =~= spec_vertex_attributes());
    }
    r
}

/// Law: the vertex attributes tile the declared stride — offsets ascend,
/// each attribute's bytes end where the next begins, and the last ends at
/// the stride.
pub proof fn lemma_vertex_attributes_tile_stride()
    ensures
        spec_vertex_attributes().len() == 3,
        spec_vertex_attributes()[0].offset == 0,
        spec_vertex_attributes()[1].offset == spec_vertex_attributes()[0].offset + 12,
        spec_vertex_attributes()[2].offset == spec_vertex_attributes()[1].offset + 12,
        spec_vertex_attributes()[2].offset + 8 == VERTEX_STRIDE,
{
}

/// The viewport (and scissor) rectangle covering the whole swapchain
/// extent, anchored at the origin.
pub fn viewport_rect(extent: Extent2d) -> (r: Rect)
    requires
        extent.width <= 32767,
        extent.height <= 32767,
    ensures
        r.x == 0 && r.y == 0,
        r.w == extent.width,
        r.h == extent.height,
{
    Rect { x: 0, y: 0, w: extent.width as i16, h: extent.height as i16 }
}

/// The full fixed-function and vertex-layout state of the graphics
/// pipeline.
#[derive(Clone, PartialEq, Eq, Debug)]
pub struct PipelineDesc {
    pub topology: Topology,
    pub polygon_mode: PolygonMode,
    pub cull_face: CullFace,
    pub front_face: FrontFace,
    /// Whether the depth test runs.
    pub depth_test: bool,
    /// Whether passing fragments write their depth.
    pub depth_write: bool,
    pub depth_compare: CompareOp,
    /// Whether color blending is off (opaque output).
    pub blend_off: bool,
    pub viewport: Rect,
    pub scissor: Rect,
    pub vertex_stride: u32,
    pub attributes: Vec<VertexAttribute>,
}

/// Assemble the pipeline state for the given swapchain extent: triangle
/// lists, filled polygons, back-face culling with counter-clockwise fronts,
/// a less-than depth test with writes, blending off, viewport and scissor
/// matching the extent, and the mesh's vertex layout.
pub fn build_pipeline_desc(extent: Extent2d) -> (r: PipelineDesc)
    requires
        extent.width <= 32767,
        extent.height <= 32767,
    ensures
        r.topology == Topology::TriangleList,
        r.polygon_mode == PolygonMode::Fill,
        r.cull_face == CullFace::Back,
        r.front_face == FrontFace::CounterClockwise,
        r.depth_test && r.depth_write,
        r.depth_compare == CompareOp::Less,
        r.blend_off,
        r.viewport.x == 0 && r.viewport.y == 0,
        r.viewport.w == extent.width && r.viewport.h == extent.height,
        r.scissor == r.viewport,
        r.vertex_stride == VERTEX_STRIDE,
        r.attributes@ == spec_vertex_attributes(),
{
    let viewport = viewport_rect(extent);
    PipelineDesc {
        topology: Topology::TriangleList,
        polygon_mode: PolygonMode::Fill,
        cull_face: CullFace::Back,
        front_face: FrontFace::CounterClockwise,
        depth_test: true,
        depth_write: true,
        depth_compare: CompareOp::Less,
        blend_off: true,
        viewport,
        scissor: viewport,
        vertex_stride: VERTEX_STRIDE,
        attributes: vertex_attributes(),
    }
}

} // verus!
