//! Render-pass construction: the ordered attachment list, the single
//! subpass referencing it, the external dependency, and the fixed order of
//! framebuffer attachments.

use vstd::prelude::*;
use crate::device::DepthFormat;
use crate::images::{
    ACCESS_COLOR_ATTACHMENT_READ, ACCESS_COLOR_ATTACHMENT_WRITE, ImageLayout, PipelineStage,
};
use crate::swapchain::SurfaceFormat;

verus! {

/// What a render pass does with an attachment's prior contents.
#[derive(Clone, Copy, PartialEq, Eq, Structural, Debug)]
pub enum LoadOp {
    /// Clear to the pass's clear value.
    Clear,
    /// Prior contents are irrelevant.
    DontCare,
}

/// What a render pass does with an attachment's contents afterwards.
#[derive(Clone, Copy, PartialEq, Eq, Structural, Debug)]
pub enum StoreOp {
    /// Keep the rendered contents.
    Store,
    /// Contents may be discarded.
    DontCare,
}

/// The format of a render-pass attachment.
#[derive(Clone, Copy, PartialEq, Eq, Structural, Debug)]
pub enum AttachmentFormat {
    /// A color attachment in the swapchain's surface format.
    Color(SurfaceFormat),
    /// The depth attachment in the chosen depth format.
    Depth(DepthFormat),
}

/// One attachment of the render pass.
#[derive(Clone, Copy, PartialEq, Eq, Structural, Debug)]
pub struct AttachmentDesc {
    pub format: AttachmentFormat,
    /// Multisample count.
    pub samples: u8,
    pub load_op: LoadOp,
    pub store_op: StoreOp,
    /// Layout the attachment is in when the pass begins.
    pub initial_layout: ImageLayout,
    /// Layout the pass leaves the attachment in.
    pub final_layout: ImageLayout,
}

/// The render pass's ordered attachment list: the multisampled color
/// attachment (cleared, stored, left color-attachment-optimal), the depth
/// attachment (cleared, discarded, left depth-stencil-optimal), and the
/// single-sampled resolve attachment (loaded as don't-care, stored, left
/// presentable).
pub open spec fn spec_render_pass_attachments(
    color_format: SurfaceFormat,
    depth_format: DepthFormat,
    samples: u8,
) -> Seq<AttachmentDesc> {
    seq![
        AttachmentDesc {
            format: AttachmentFormat::Color(color_format),
            samples: samples,
            load_op: LoadOp::Clear,
            store_op: StoreOp::Store,
            initial_layout: ImageLayout::Undefined,
            final_layout: ImageLayout::ColorAttachmentOptimal,
        },
        AttachmentDesc {
            format: AttachmentFormat::Depth(depth_format),
            samples: samples,
            load_op: LoadOp::Clear,
            store_op: StoreOp::DontCare,
            initial_layout: ImageLayout::Undefined,
            final_layout: ImageLayout::DepthStencilAttachmentOptimal,
        },
        AttachmentDesc {
            format: AttachmentFormat::Color(color_format),
            samples: 1,
            load_op: LoadOp::DontCare,
            store_op: StoreOp::Store,
            initial_layout: ImageLayout::Undefined,
            final_layout: ImageLayout::Present,
        },
    ]
}

/// Build the attachment list from the swapchain format, the chosen depth
/// format, and the adapter's maximal usable sample count.
pub fn build_render_pass_attachments(
    color_format: SurfaceFormat,
    depth_format: DepthFormat,
    samples: u8,
) -> (r: Vec<AttachmentDesc>)
    ensures
        r@ == spec_render_pass_attachments(color_format, depth_format, samples),
{
    let mut r: Vec<AttachmentDesc> = Vec::new();
    r.push(AttachmentDesc {
        format: AttachmentFormat::Color(color_format),
        samples,
        load_op: LoadOp::Clear,
        store_op: StoreOp::Store,
        initial_layout: ImageLayout::Undefined,
        final_layout: ImageLayout::ColorAttachmentOptimal,
    });
    r.push(AttachmentDesc {
        format: AttachmentFormat::Depth(depth_format),
        samples,
        load_op: LoadOp::Clear,
        store_op: StoreOp::DontCare,
        initial_layout: ImageLayout::Undefined,
        final_layout: ImageLayout::DepthStencilAttachmentOptimal,
    });
    r.push(AttachmentDesc {
        format: AttachmentFormat::Color(color_format),
        samples: 1,
        load_op: LoadOp::DontCare,
        store_op: StoreOp::Store,
        initial_layout: ImageLayout::Undefined,
        final_layout: ImageLayout::Present,
    });
    proof {
        assert(r@ =~= spec_render_pass_attachments(color_format, depth_format, samples));
    }
    r
}

/// The single subpass: one color reference, one depth-stencil reference,
/// one resolve reference, each an index into the attachment list paired
/// with the layout the subpass uses it in.
#[derive(Clone, Copy, PartialEq, Eq, Structural, Debug)]
pub struct SubpassDesc {
    pub color_attachment: usize,
    pub color_layout: ImageLayout,
    pub depth_attachment: usize,
    pub depth_layout: ImageLayout,
    pub resolve_attachment: usize,
    pub resolve_layout: ImageLayout,
}

/// The renderer's only subpass: color at index 0, depth-stencil at index 1,
/// resolve at index 2.
pub fn main_subpass() -> (r: SubpassDesc)
    ensures
        r.color_attachment == 0 && r.color_layout == ImageLayout::ColorAttachmentOptimal,
        r.depth_attachment == 1 && r.depth_layout == ImageLayout::DepthStencilAttachmentOptimal,
        r.resolve_attachment == 2 && r.resolve_layout == ImageLayout::ColorAttachmentOptimal,
{
    SubpassDesc {
        color_attachment: 0,
        color_layout: ImageLayout::ColorAttachmentOptimal,
        depth_attachment: 1,
        depth_layout: ImageLayout::DepthStencilAttachmentOptimal,
        resolve_attachment: 2,
        resolve_layout: ImageLayout::ColorAttachmentOptimal,
    }
}

/// The render pass's single dependency: from outside the pass into subpass
/// 0, synchronized at the color-attachment-output stage on both sides,
/// making color-attachment reads and writes visible.
#[derive(Clone, Copy, PartialEq, Eq, Structural, Debug)]
pub struct SubpassDependency {
    /// The source is external to the render pass.
    pub src_external: bool,
    /// Index of the destination subpass.
    pub dst_subpass: usize,
    pub src_stage: PipelineStage,
    pub dst_stage: PipelineStage,
    /// Access mask waited on.
    pub src_access: u32,
    /// Access mask made visible.
    pub dst_access: u32,
}

/// The external-to-subpass-0 dependency the pass is created with.
pub fn external_color_dependency() -> (r: SubpassDependency)
    ensures
        r.src_external,
        r.dst_subpass == 0,
        r.src_stage == PipelineStage::ColorAttachmentOutput,
        r.dst_stage == PipelineStage::ColorAttachmentOutput,
        r.src_access == 0,
        r.dst_access == ACCESS_COLOR_ATTACHMENT_READ | ACCESS_COLOR_ATTACHMENT_WRITE,
{
    SubpassDependency {
        src_external: true,
        dst_subpass: 0,
        src_stage: PipelineStage::ColorAttachmentOutput,
        dst_stage: PipelineStage::ColorAttachmentOutput,
        src_access: 0,
        dst_access: ACCESS_COLOR_ATTACHMENT_READ | ACCESS_COLOR_ATTACHMENT_WRITE,
    }
}

/// Law: the subpass's references match the attachment list — every index is
/// in range, the color and resolve references name attachments in the
/// swapchain's format, the color and depth attachments carry the requested
/// multisample count, and the resolve target is single-sampled.
pub proof fn lemma_subpass_matches_attachments(
    color_format: SurfaceFormat,
    depth_format: DepthFormat,
    samples: u8,
    sp: SubpassDesc,
)
    requires
        sp.color_attachment == 0,
        sp.depth_attachment == 1,
        sp.resolve_attachment == 2,
    ensures
        ({
            let at = spec_render_pass_attachments(color_format, depth_format, samples);
            &&& sp.color_attachment < at.len()
            &&& sp.depth_attachment < at.len()
            &&& sp.resolve_attachment < at.len()
            &&& at[sp.color_attachment as int].format == AttachmentFormat::Color(color_format)
            &&& at[sp.depth_attachment as int].format == AttachmentFormat::Depth(depth_format)
            &&& at[sp.resolve_attachment as int].format == AttachmentFormat::Color(color_format)
            &&& at[sp.color_attachment as int].samples == samples
            &&& at[sp.depth_attachment as int].samples == samples
            &&& at[sp.resolve_attachment as int].samples == 1
        }),
{
}

/// What a framebuffer binds at each slot, in the fixed order the render
/// pass's attachment list dictates.
#[derive(Clone, Copy, PartialEq, Eq, Structural, Debug)]
pub enum FramebufferAttachment {
    /// The shared multisampled color target.
    MsaaColor,
    /// The shared depth target.
    Depth,
    /// The view of one swapchain image, the resolve destination.
    SwapchainImage { index: usize },
}

/// The attachment views of the framebuffer for swapchain image
/// `image_index`: the multisampled color target, the depth target, and
/// that image's own view, in exactly the attachment-list order.
pub fn framebuffer_attachments(image_index: usize) -> (r: Vec<FramebufferAttachment>)
    ensures
        r@ == seq![
            FramebufferAttachment::MsaaColor,
            FramebufferAttachment::Depth,
            FramebufferAttachment::SwapchainImage { index: image_index },
        ],
{
    let mut r: Vec<FramebufferAttachment> = Vec::new();
    r.push(FramebufferAttachment::MsaaColor);
    r.push(FramebufferAttachment::Depth);
    r.push(FramebufferAttachment::SwapchainImage { index: image_index });
    proof {
        assert(r@ =~= seq![
            FramebufferAttachment::MsaaColor,
            FramebufferAttachment::Depth,
            FramebufferAttachment::SwapchainImage { index: image_index },
        ]);
    }
    r
}

} // verus!
