//! Pre-recorded draw command streams: one replayable command buffer per
//! swapchain image, recorded once and resubmitted unmodified. Only uniform
//! data changes per frame, so the streams never need re-recording until the
//! swapchain and its dependents are rebuilt.

use vstd::prelude::*;
use crate::swapchain::Extent2d;

verus! {

/// The width of the mesh's indices.
#[derive(Clone, Copy, PartialEq, Eq, Structural, Debug)]
pub enum IndexKind {
    U16,
    U32,
}

/// One recorded command of a per-image draw stream.
#[derive(Clone, Copy, PartialEq, Eq, Structural, Debug)]
pub enum DrawCmd {
    /// Begin the render pass over the full render area, clearing color to
    /// opaque black and depth to the far plane.
    BeginRenderPass {
        /// Render-area extent, matching the swapchain.
        width: u32,
        height: u32,
    },
    /// Bind the graphics pipeline.
    BindPipeline,
    /// Bind the mesh's vertex buffer at binding 0, offset 0.
    BindVertexBuffer,
    /// Bind the mesh's index buffer at offset 0.
    BindIndexBuffer { kind: IndexKind },
    /// Bind the descriptor set owned by this stream's swapchain image.
    BindDescriptorSet { set_index: usize },
    /// Draw the whole mesh once: all indices, one instance.
    DrawIndexed { index_count: u32 },
    /// End the render pass.
    EndRenderPass,
}

/// The draw stream recorded for swapchain image `image_index`: begin the
/// pass over the swapchain extent, bind pipeline, vertex buffer, 32-bit
/// index buffer, and that image's own descriptor set, draw every index
/// once, end the pass.
pub open spec fn spec_draw_stream(
    extent: Extent2d,
    image_index: usize,
    index_count: u32,
) -> Seq<DrawCmd> {
    seq![
        DrawCmd::BeginRenderPass { width: extent.width, height: extent.height },
        DrawCmd::BindPipeline,
        DrawCmd::BindVertexBuffer,
        DrawCmd::BindIndexBuffer { kind: IndexKind::U32 },
        DrawCmd::BindDescriptorSet { set_index: image_index },
        DrawCmd::DrawIndexed { index_count },
        DrawCmd::EndRenderPass,
    ]
}

/// Record the draw stream for one swapchain image.
pub fn record_draw_stream(extent: Extent2d, image_index: usize, index_count: u32) -> (r: Vec<
    DrawCmd,
>)
    ensures
        r@ == spec_draw_stream(extent, image_index, index_count),
{
    let mut r: Vec<DrawCmd> = Vec::new();
    r.push(DrawCmd::BeginRenderPass { width: extent.width, height: extent.height });
    r.push(DrawCmd::BindPipeline);
    r.push(DrawCmd::BindVertexBuffer);
    r.push(DrawCmd::BindIndexBuffer { kind: IndexKind::U32 });
    r.push(DrawCmd::BindDescriptorSet { set_index: image_index });
    r.push(DrawCmd::DrawIndexed { index_count });
    r.push(DrawCmd::EndRenderPass);
    proof {
        assert(r@ =~= spec_draw_stream(extent, image_index, index_count));
    }
    r
}

/// Record one draw stream per swapchain image. Stream `i` binds descriptor
/// set `i`, so no two frames contend on a descriptor set or uniform buffer.
pub fn record_all_streams(extent: Extent2d, image_count: usize, index_count: u32) -> (r: Vec<
    Vec<DrawCmd>,
>)
    ensures
        r@.len() == image_count,
        forall|i: int| 0 <= i < image_count
            ==> #[trigger] r@[i]@ == spec_draw_stream(extent, i as usize, index_count),
{
    let mut r: Vec<Vec<DrawCmd>> = Vec::new();
    let mut i: usize = 0;
    while i < image_count
        invariant
            i <= image_count,
            r@.len() == i,
            forall|k: int| 0 <= k < i
                ==> #[trigger] r@[k]@ == spec_draw_stream(extent, k as usize, index_count),
        decreases image_count - i,
    {
        let stream = record_draw_stream(extent, i, index_count);
        r.push(stream);
        i = i + 1;
    }
    r
}

} // verus!
