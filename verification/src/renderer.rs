//! The renderer's aggregate model: everything that is derived from one
//! surface snapshot at startup, rebuilt wholesale on invalidation, and the
//! fixed order the rebuild runs in.

use vstd::prelude::*;
use crate::commands::{DrawCmd, record_all_streams, spec_draw_stream};
use crate::pipeline::{Rect, viewport_rect};
use crate::swapchain::{
    DEFAULT_HEIGHT, DEFAULT_WIDTH, Extent2d, SurfaceCaps, SurfaceFormat, SwapchainProps,
    derive_swapchain_config, formats_view, spec_swapchain_config,
};

verus! {

/// The default extent requested of every new swapchain.
pub open spec fn spec_default_extent() -> Extent2d {
    Extent2d { width: DEFAULT_WIDTH, height: DEFAULT_HEIGHT }
}

/// The default extent requested of every new swapchain.
pub fn default_extent() -> (r: Extent2d)
    ensures
        r == spec_default_extent(),
{
    Extent2d { width: DEFAULT_WIDTH, height: DEFAULT_HEIGHT }
}

/// One snapshot of what the surface reports: its capabilities and its
/// preferred formats, if it states any.
pub struct SurfaceSnapshot {
    pub caps: SurfaceCaps,
    pub formats: Option<Vec<SurfaceFormat>>,
}

/// One step of the swapchain-invalidation rebuild.
#[derive(Clone, Copy, PartialEq, Eq, Structural, Debug)]
pub enum RebuildStep {
    /// Wait until the device is idle, so no in-flight work references what
    /// is about to be destroyed.
    WaitIdle,
    /// Destroy the old swapchain wholesale; it is never patched in place.
    DestroySwapchain,
    CreateSwapchain,
    CreateRenderPass,
    CreateColorTarget,
    CreateDepthTarget,
    CreateFramebuffers,
    CreatePipeline,
    UploadMesh,
    UploadTexture,
    CreateUniformBuffers,
    RecordCommands,
    SetViewport,
}

/// The full rebuild, in order: device idle-wait, destroy the swapchain,
/// then recreate the swapchain and every dependent — render pass, color and
/// depth targets, framebuffers, pipeline, mesh and texture uploads, uniform
/// buffers with their descriptor sets, the recorded command streams, and
/// finally the viewport.
pub open spec fn spec_rebuild_sequence() -> Seq<RebuildStep> {
    seq![
        RebuildStep::WaitIdle,
        RebuildStep::DestroySwapchain,
        RebuildStep::CreateSwapchain,
        RebuildStep::CreateRenderPass,
        RebuildStep::CreateColorTarget,
        RebuildStep::CreateDepthTarget,
        RebuildStep::CreateFramebuffers,
        RebuildStep::CreatePipeline,
        RebuildStep::UploadMesh,
        RebuildStep::UploadTexture,
        RebuildStep::CreateUniformBuffers,
        RebuildStep::RecordCommands,
        RebuildStep::SetViewport,
    ]
}

/// The ordered steps the invalidation rebuild performs.
pub fn rebuild_sequence() -> (r: Vec<RebuildStep>)
    ensures
        r@ == spec_rebuild_sequence(),
{
    let mut r: Vec<RebuildStep> = Vec::new();
    r.push(RebuildStep::WaitIdle);
    r.push(RebuildStep::DestroySwapchain);
    r.push(RebuildStep::CreateSwapchain);
    r.push(RebuildStep::CreateRenderPass);
    r.push(RebuildStep::CreateColorTarget);
    r.push(RebuildStep::CreateDepthTarget);
    r.push(RebuildStep::CreateFramebuffers);
    r.push(RebuildStep::CreatePipeline);
    r.push(RebuildStep::UploadMesh);
    r.push(RebuildStep::UploadTexture);
    r.push(RebuildStep::CreateUniformBuffers);
    r.push(RebuildStep::RecordCommands);
    r.push(RebuildStep::SetViewport);
    proof {
        assert(r@ =~= spec_rebuild_sequence());
    }
    r
}

/// Law: the rebuild never touches a live resource — the idle-wait comes
/// first, the old swapchain is destroyed before anything is recreated, and
/// the new swapchain exists before any of its dependents is built.
pub proof fn lemma_rebuild_order()
    ensures
        spec_rebuild_sequence()[0] == RebuildStep::WaitIdle,
        spec_rebuild_sequence()[1] == RebuildStep::DestroySwapchain,
        spec_rebuild_sequence()[2] == RebuildStep::CreateSwapchain,
        forall|k: int| 3 <= k < spec_rebuild_sequence().len()
            ==> #[trigger] spec_rebuild_sequence()[k] != RebuildStep::WaitIdle
                && spec_rebuild_sequence()[k] != RebuildStep::DestroySwapchain
                && spec_rebuild_sequence()[k] != RebuildStep::CreateSwapchain,
{
}

/// Everything the renderer derives from one surface snapshot: the
/// negotiated swapchain, the viewport covering its extent, and one
/// pre-recorded command stream per swapchain image. Rebuilding is a pure
/// function of the surface, never a partial patch.
pub struct RendererModel {
    pub swapchain: SwapchainProps,
    pub viewport: Rect,
    /// One recorded draw stream per swapchain image.
    pub commands: Vec<Vec<DrawCmd>>,
    /// Number of mesh indices every stream draws.
    pub index_count: u32,
}

impl RendererModel {
    /// Whether this state is exactly what the given surface snapshot
    /// determines: the negotiated swapchain configuration, a viewport
    /// matching its extent, and per-image command streams drawing
    /// `index_count` indices.
    pub open spec fn matches_surface(self, surface: SurfaceSnapshot, index_count: u32) -> bool {
        &&& self.swapchain == spec_swapchain_config(
            surface.caps,
            formats_view(surface.formats),
            spec_default_extent(),
        )
        &&& self.viewport.x == 0 && self.viewport.y == 0
        &&& self.viewport.w == self.swapchain.extent.width
        &&& self.viewport.h == self.swapchain.extent.height
        &&& self.index_count == index_count
        &&& self.commands@.len() == self.swapchain.image_count
        &&& forall|i: int| 0 <= i < self.commands@.len()
            ==> #[trigger] self.commands@[i]@ == spec_draw_stream(
                self.swapchain.extent,
                i as usize,
                index_count,
            )
    }

    /// Build the renderer's derived state from a surface snapshot, as
    /// startup does.
    pub fn build(surface: &SurfaceSnapshot, index_count: u32) -> (r: RendererModel)
        requires
            surface.formats matches Some(fs) ==> fs@.len() >= 1,
            spec_swapchain_config(
                surface.caps,
                formats_view(surface.formats),
                spec_default_extent(),
            ).extent.width <= 32767,
            spec_swapchain_config(
                surface.caps,
                formats_view(surface.formats),
                spec_default_extent(),
            ).extent.height <= 32767,
            surface.caps.min_image_count <= usize::MAX,
        ensures
            r.matches_surface(*surface, index_count),
    {
        let swapchain = derive_swapchain_config(&surface.caps, &surface.formats, default_extent());
        let viewport = viewport_rect(swapchain.extent);
        let commands = record_all_streams(
            swapchain.extent,
            swapchain.image_count as usize,
            index_count,
        );
        RendererModel { swapchain, viewport, commands, index_count }
    }

    /// The invalidation rebuild: recompute everything from the surface as
    /// it stands now, exactly as a fresh startup would. Nothing of the old
    /// state survives into the result.
    pub fn rebuild(&mut self, surface: &SurfaceSnapshot)
        requires
            surface.formats matches Some(fs) ==> fs@.len() >= 1,
            spec_swapchain_config(
                surface.caps,
                formats_view(surface.formats),
                spec_default_extent(),
            ).extent.width <= 32767,
            spec_swapchain_config(
                surface.caps,
                formats_view(surface.formats),
                spec_default_extent(),
            ).extent.height <= 32767,
            surface.caps.min_image_count <= usize::MAX,
        ensures
            final(self).matches_surface(*surface, old(self).index_count),
    {
        let index_count = self.index_count;
        *self = RendererModel::build(surface, index_count);
    }
}

/// Law: the invalidation rebuild is idempotent. Rebuilding is a pure
/// function of the surface, so any two states rebuilt against the same
/// unchanged surface — in particular, the states after one and after two
/// consecutive rebuilds with no frames in between — carry the same
/// swapchain extent and format, and the same viewport.
pub proof fn lemma_rebuild_idempotent(
    once: RendererModel,
    twice: RendererModel,
    surface: SurfaceSnapshot,
    index_count: u32,
)
    requires
        once.matches_surface(surface, index_count),
        twice.matches_surface(surface, index_count),
    ensures
        twice.swapchain == once.swapchain,
        twice.swapchain.extent == once.swapchain.extent,
        twice.swapchain.format == once.swapchain.format,
        twice.viewport == once.viewport,
{
}

} // verus!
