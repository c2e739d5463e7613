use rendercore::renderer::{default_extent, rebuild_sequence, RebuildStep, RendererModel, SurfaceSnapshot};
use rendercore::swapchain::{
    derive_swapchain_config, select_surface_format, Extent2d, SurfaceCaps, SurfaceFormat,
    DEFAULT_HEIGHT, DEFAULT_WIDTH, FORMAT_RGBA8_SRGB,
};

fn caps_fixed_extent(w: u32, h: u32) -> SurfaceCaps {
    SurfaceCaps {
        min_image_count: 2,
        max_image_count: 8,
        current_extent: Some(Extent2d { width: w, height: h }),
        min_extent: Extent2d { width: 1, height: 1 },
        max_extent: Extent2d { width: 4096, height: 4096 },
    }
}

#[test]
fn format_prefers_first_srgb() {
    let formats = Some(vec![
        SurfaceFormat { code: 50, srgb: false },
        SurfaceFormat { code: 44, srgb: true },
        SurfaceFormat { code: 43, srgb: true },
    ]);
    let f = select_surface_format(&formats);
    assert_eq!(f.code, 44);
    assert!(f.srgb);
}

#[test]
fn format_falls_back_to_first_reported() {
    let formats = Some(vec![
        SurfaceFormat { code: 50, srgb: false },
        SurfaceFormat { code: 37, srgb: false },
    ]);
    assert_eq!(select_surface_format(&formats).code, 50);
}

#[test]
fn format_defaults_when_surface_is_indifferent() {
    let f = select_surface_format(&None);
    assert_eq!(f.code, FORMAT_RGBA8_SRGB);
    assert!(f.srgb);
}

#[test]
fn extent_takes_surface_current() {
    let caps = caps_fixed_extent(800, 600);
    let cfg = derive_swapchain_config(&caps, &None, default_extent());
    assert_eq!(cfg.extent, Extent2d { width: 800, height: 600 });
    assert_eq!(cfg.image_count, 2);
}

#[test]
fn extent_clamps_default_into_supported_range() {
    let caps = SurfaceCaps {
        min_image_count: 3,
        max_image_count: 8,
        current_extent: None,
        min_extent: Extent2d { width: 200, height: 200 },
        max_extent: Extent2d { width: 640, height: 480 },
    };
    let cfg = derive_swapchain_config(&caps, &None, default_extent());
    // The 1024 x 768 default is capped at the surface maximum.
    assert_eq!(cfg.extent, Extent2d { width: 640, height: 480 });
    assert_eq!(cfg.image_count, 3);

    let caps_high = SurfaceCaps {
        min_image_count: 2,
        max_image_count: 8,
        current_extent: None,
        min_extent: Extent2d { width: 2000, height: 2000 },
        max_extent: Extent2d { width: 4000, height: 4000 },
    };
    let cfg = derive_swapchain_config(&caps_high, &None, default_extent());
    // The default is raised to the surface minimum.
    assert_eq!(cfg.extent, Extent2d { width: 2000, height: 2000 });
}

#[test]
fn default_extent_matches_requested_window() {
    let d = default_extent();
    assert_eq!(d.width, DEFAULT_WIDTH);
    assert_eq!(d.height, DEFAULT_HEIGHT);
}

#[test]
fn rebuild_twice_equals_rebuild_once() {
    let surface = SurfaceSnapshot {
        caps: caps_fixed_extent(1280, 720),
        formats: Some(vec![
            SurfaceFormat { code: 50, srgb: false },
            SurfaceFormat { code: 43, srgb: true },
        ]),
    };
    let mut model = RendererModel::build(&surface, 6);
    let after_once = (model.swapchain, model.viewport);
    // Invalidate twice in a row with no frames in between, against an
    // unchanged surface.
    model.rebuild(&surface);
    model.rebuild(&surface);
    assert_eq!(model.swapchain, after_once.0);
    assert_eq!(model.swapchain.extent, Extent2d { width: 1280, height: 720 });
    assert_eq!(model.swapchain.format.code, 43);
    assert_eq!(model.viewport, after_once.1);
}

#[test]
fn renderer_model_records_one_stream_per_image() {
    let surface = SurfaceSnapshot { caps: caps_fixed_extent(320, 240), formats: None };
    let model = RendererModel::build(&surface, 6);
    assert_eq!(model.commands.len(), 2);
    assert_eq!(model.viewport.w, 320);
    assert_eq!(model.viewport.h, 240);
}

#[test]
fn rebuild_sequence_order() {
    let steps = rebuild_sequence();
    assert_eq!(steps[0], RebuildStep::WaitIdle);
    assert_eq!(steps[1], RebuildStep::DestroySwapchain);
    assert_eq!(steps[2], RebuildStep::CreateSwapchain);
    let pos = |s: RebuildStep| steps.iter().position(|x| *x == s).unwrap();
    assert!(pos(RebuildStep::CreateRenderPass) < pos(RebuildStep::CreateFramebuffers));
    assert!(pos(RebuildStep::CreateColorTarget) < pos(RebuildStep::CreateFramebuffers));
    assert!(pos(RebuildStep::CreateDepthTarget) < pos(RebuildStep::CreateFramebuffers));
    assert!(pos(RebuildStep::CreatePipeline) < pos(RebuildStep::RecordCommands));
    assert!(pos(RebuildStep::CreateUniformBuffers) < pos(RebuildStep::RecordCommands));
    assert_eq!(*steps.last().unwrap(), RebuildStep::SetViewport);
}
