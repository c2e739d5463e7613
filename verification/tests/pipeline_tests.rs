use rendercore::commands::{record_all_streams, record_draw_stream, DrawCmd, IndexKind};
use rendercore::descriptors::{
    descriptor_pool_ranges, descriptor_set_bindings, texture_descriptor_write,
    uniform_descriptor_write, DescriptorType, ShaderStage,
};
use rendercore::device::{has_stencil, optimal_depth_format, supports_linear_blit, DepthFormat,
    DepthFormatSupport, FEATURE_DEPTH_STENCIL_ATTACHMENT, FEATURE_SAMPLED_LINEAR};
use rendercore::images::{color_target_barrier, depth_target_barrier, texture_image_plan,
    depth_image_plan, ImageLayout, PipelineStage, ASPECT_DEPTH, ASPECT_STENCIL};
use rendercore::pipeline::{
    build_pipeline_desc, vertex_attributes, CompareOp, CullFace, FrontFace, PolygonMode, Topology,
    FORMAT_RG32_SFLOAT, FORMAT_RGB32_SFLOAT, VERTEX_STRIDE,
};
use rendercore::renderpass::{
    build_render_pass_attachments, external_color_dependency, framebuffer_attachments,
    main_subpass, AttachmentFormat, FramebufferAttachment, LoadOp, StoreOp,
};
use rendercore::swapchain::{Extent2d, SurfaceFormat};

#[test]
fn pipeline_fixed_function_state() {
    let d = build_pipeline_desc(Extent2d { width: 1024, height: 768 });
    assert_eq!(d.topology, Topology::TriangleList);
    assert_eq!(d.polygon_mode, PolygonMode::Fill);
    assert_eq!(d.cull_face, CullFace::Back);
    assert_eq!(d.front_face, FrontFace::CounterClockwise);
    assert!(d.depth_test && d.depth_write);
    assert_eq!(d.depth_compare, CompareOp::Less);
    assert!(d.blend_off);
    assert_eq!((d.viewport.x, d.viewport.y, d.viewport.w, d.viewport.h), (0, 0, 1024, 768));
    assert_eq!(d.scissor, d.viewport);
    assert_eq!(d.vertex_stride, VERTEX_STRIDE);
}

#[test]
fn vertex_layout_packs_three_attributes() {
    let a = vertex_attributes();
    assert_eq!(a.len(), 3);
    assert_eq!((a[0].location, a[0].format, a[0].offset), (0, FORMAT_RGB32_SFLOAT, 0));
    assert_eq!((a[1].location, a[1].format, a[1].offset), (1, FORMAT_RGB32_SFLOAT, 12));
    assert_eq!((a[2].location, a[2].format, a[2].offset), (2, FORMAT_RG32_SFLOAT, 24));
    assert_eq!(a[2].offset + 8, VERTEX_STRIDE);
}

#[test]
fn render_pass_attachment_list() {
    let fmt = SurfaceFormat { code: 43, srgb: true };
    let at = build_render_pass_attachments(fmt, DepthFormat::D32Sfloat, 8);
    assert_eq!(at.len(), 3);
    assert_eq!(at[0].format, AttachmentFormat::Color(fmt));
    assert_eq!(at[0].samples, 8);
    assert_eq!((at[0].load_op, at[0].store_op), (LoadOp::Clear, StoreOp::Store));
    assert_eq!(at[0].final_layout, ImageLayout::ColorAttachmentOptimal);
    assert_eq!(at[1].format, AttachmentFormat::Depth(DepthFormat::D32Sfloat));
    assert_eq!((at[1].load_op, at[1].store_op), (LoadOp::Clear, StoreOp::DontCare));
    assert_eq!(at[1].final_layout, ImageLayout::DepthStencilAttachmentOptimal);
    assert_eq!(at[2].samples, 1);
    assert_eq!((at[2].load_op, at[2].store_op), (LoadOp::DontCare, StoreOp::Store));
    assert_eq!(at[2].final_layout, ImageLayout::Present);
    let sp = main_subpass();
    assert_eq!(
        (sp.color_attachment, sp.depth_attachment, sp.resolve_attachment),
        (0, 1, 2)
    );
    let dep = external_color_dependency();
    assert!(dep.src_external);
    assert_eq!(dep.dst_subpass, 0);
    assert_eq!(dep.src_stage, PipelineStage::ColorAttachmentOutput);
    assert_eq!(dep.dst_stage, PipelineStage::ColorAttachmentOutput);
}

#[test]
fn framebuffer_attachment_order_is_color_depth_swapimage() {
    let fb = framebuffer_attachments(2);
    assert_eq!(fb.len(), 3);
    assert_eq!(fb[0], FramebufferAttachment::MsaaColor);
    assert_eq!(fb[1], FramebufferAttachment::Depth);
    assert_eq!(fb[2], FramebufferAttachment::SwapchainImage { index: 2 });
}

#[test]
fn descriptor_layout_and_writes() {
    let b = descriptor_set_bindings();
    assert_eq!(b.len(), 2);
    assert_eq!((b[0].binding, b[0].ty, b[0].stage), (0, DescriptorType::UniformBuffer, ShaderStage::Vertex));
    assert_eq!(
        (b[1].binding, b[1].ty, b[1].stage),
        (1, DescriptorType::CombinedImageSampler, ShaderStage::Fragment)
    );
    let ranges = descriptor_pool_ranges(3);
    assert_eq!(ranges[0].count, 3);
    assert_eq!(ranges[1].count, 3);
    let uw = uniform_descriptor_write();
    assert_eq!((uw.binding, uw.ty), (0, DescriptorType::UniformBuffer));
    let tw = texture_descriptor_write();
    assert_eq!((tw.binding, tw.ty), (1, DescriptorType::CombinedImageSampler));
}

#[test]
fn draw_stream_binds_per_image_descriptor_set() {
    let extent = Extent2d { width: 640, height: 480 };
    let s = record_draw_stream(extent, 1, 6);
    assert_eq!(s.len(), 7);
    assert_eq!(s[0], DrawCmd::BeginRenderPass { width: 640, height: 480 });
    assert_eq!(s[3], DrawCmd::BindIndexBuffer { kind: IndexKind::U32 });
    assert_eq!(s[4], DrawCmd::BindDescriptorSet { set_index: 1 });
    assert_eq!(s[5], DrawCmd::DrawIndexed { index_count: 6 });
    assert_eq!(s[6], DrawCmd::EndRenderPass);

    let all = record_all_streams(extent, 3, 6);
    assert_eq!(all.len(), 3);
    for (i, stream) in all.iter().enumerate() {
        assert_eq!(stream[4], DrawCmd::BindDescriptorSet { set_index: i });
    }
}

#[test]
fn depth_format_prefers_pure_depth() {
    let all = DepthFormatSupport {
        d32_sfloat: FEATURE_DEPTH_STENCIL_ATTACHMENT,
        d32_sfloat_s8_uint: FEATURE_DEPTH_STENCIL_ATTACHMENT,
        d24_unorm_s8_uint: FEATURE_DEPTH_STENCIL_ATTACHMENT,
    };
    assert_eq!(optimal_depth_format(&all), Some(DepthFormat::D32Sfloat));
    let only_last = DepthFormatSupport {
        d32_sfloat: 0,
        d32_sfloat_s8_uint: 0,
        d24_unorm_s8_uint: FEATURE_DEPTH_STENCIL_ATTACHMENT,
    };
    assert_eq!(optimal_depth_format(&only_last), Some(DepthFormat::D24UnormS8Uint));
    let none = DepthFormatSupport { d32_sfloat: 0, d32_sfloat_s8_uint: 0, d24_unorm_s8_uint: 0 };
    assert_eq!(optimal_depth_format(&none), None);
    assert!(!has_stencil(DepthFormat::D32Sfloat));
    assert!(has_stencil(DepthFormat::D24UnormS8Uint));
}

#[test]
fn linear_blit_capability_check() {
    assert!(supports_linear_blit(FEATURE_SAMPLED_LINEAR | 0x8000));
    assert!(!supports_linear_blit(0x8000));
}

#[test]
fn attachment_image_plans() {
    let t = texture_image_plan(512, 256);
    assert_eq!(t.mip_levels, 10);
    assert_eq!(t.samples, 1);
    let d = depth_image_plan(1024, 768, 8);
    assert_eq!(d.samples, 8);
    assert_eq!(d.mip_levels, 1);
    let db = depth_target_barrier(DepthFormat::D32SfloatS8Uint);
    assert_eq!(db.aspects, ASPECT_DEPTH | ASPECT_STENCIL);
    assert_eq!(db.to_layout, ImageLayout::DepthStencilAttachmentOptimal);
    assert_eq!(db.dst_stage, PipelineStage::EarlyFragmentTests);
    let db2 = depth_target_barrier(DepthFormat::D32Sfloat);
    assert_eq!(db2.aspects, ASPECT_DEPTH);
    let cb = color_target_barrier();
    assert_eq!(cb.to_layout, ImageLayout::ColorAttachmentOptimal);
    assert_eq!(cb.dst_stage, PipelineStage::ColorAttachmentOutput);
}
