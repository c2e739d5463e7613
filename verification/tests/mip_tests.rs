use rendercore::images::{build_texture_ops, ImageLayout, PipelineStage, TextureOp};
use rendercore::mip::{mip_levels, next_mip_dim};

#[test]
fn mip_levels_of_rectangular_texture() {
    assert_eq!(mip_levels(512, 256), 10);
}

#[test]
fn mip_levels_of_single_pixel() {
    assert_eq!(mip_levels(1, 1), 1);
}

#[test]
fn mip_levels_more_cases() {
    assert_eq!(mip_levels(2, 1), 2);
    assert_eq!(mip_levels(1024, 1024), 11);
    assert_eq!(mip_levels(1000, 600), 10);
    assert_eq!(mip_levels(u32::MAX, 1), 32);
}

#[test]
fn mip_dims_halve_and_floor_at_one() {
    assert_eq!(next_mip_dim(512), 256);
    assert_eq!(next_mip_dim(5), 2);
    assert_eq!(next_mip_dim(2), 1);
    assert_eq!(next_mip_dim(1), 1);
}

#[test]
fn texture_ops_count_is_three_per_level() {
    // 8 x 4 has 4 levels: init barrier + copy + 3 triples + final barrier.
    let ops = build_texture_ops(8, 4, 32);
    assert_eq!(ops.len(), 12);
}

#[test]
fn texture_ops_structure_and_blit_dims() {
    let ops = build_texture_ops(8, 4, 64);
    // The stream starts by making every level writable.
    match ops[0] {
        TextureOp::Barrier(b) => {
            assert_eq!(b.level_start, 0);
            assert_eq!(b.level_end, 4);
            assert_eq!(b.from_layout, ImageLayout::Undefined);
            assert_eq!(b.to_layout, ImageLayout::TransferDstOptimal);
            assert_eq!(b.src_stage, PipelineStage::TopOfPipe);
            assert_eq!(b.dst_stage, PipelineStage::Transfer);
        }
        _ => panic!("expected the initial barrier"),
    }
    // Level 0 is filled from the staging buffer, rows measured in texels.
    match ops[1] {
        TextureOp::CopyBufferToImage { buffer_row_length, width, height } => {
            assert_eq!(buffer_row_length, 16);
            assert_eq!(width, 8);
            assert_eq!(height, 4);
        }
        _ => panic!("expected the level-0 copy"),
    }
    // The first blit halves 8x4 into 4x2.
    match ops[3] {
        TextureOp::Blit { src_level, dst_level, src_width, src_height, dst_width, dst_height } => {
            assert_eq!((src_level, dst_level), (0, 1));
            assert_eq!((src_width, src_height), (8, 4));
            assert_eq!((dst_width, dst_height), (4, 2));
        }
        _ => panic!("expected the first blit"),
    }
    // The last blit reaches the 1x1 level: 2x1 into 1x1.
    match ops[9] {
        TextureOp::Blit { src_level, dst_level, src_width, src_height, dst_width, dst_height } => {
            assert_eq!((src_level, dst_level), (2, 3));
            assert_eq!((src_width, src_height), (2, 1));
            assert_eq!((dst_width, dst_height), (1, 1));
        }
        _ => panic!("expected the last blit"),
    }
    // The stream ends by retiring the last level for shader reads.
    match ops[11] {
        TextureOp::Barrier(b) => {
            assert_eq!(b.level_start, 3);
            assert_eq!(b.level_end, 4);
            assert_eq!(b.from_layout, ImageLayout::TransferDstOptimal);
            assert_eq!(b.to_layout, ImageLayout::ShaderReadOnlyOptimal);
            assert_eq!(b.dst_stage, PipelineStage::FragmentShader);
        }
        _ => panic!("expected the final barrier"),
    }
}

#[test]
fn texture_ops_every_level_ends_shader_readable() {
    // Replay the recorded stream over a per-level layout table, enforcing
    // what each command demands of the levels it touches.
    let levels = mip_levels(512, 256) as usize;
    let ops = build_texture_ops(512, 256, 2048);
    let mut layout = vec![ImageLayout::Undefined; levels];
    for op in &ops {
        match *op {
            TextureOp::Barrier(b) => {
                for l in b.level_start as usize..b.level_end as usize {
                    assert_eq!(layout[l], b.from_layout);
                    layout[l] = b.to_layout;
                }
            }
            TextureOp::CopyBufferToImage { .. } => {
                assert_eq!(layout[0], ImageLayout::TransferDstOptimal);
            }
            TextureOp::Blit { src_level, dst_level, .. } => {
                assert_eq!(layout[src_level as usize], ImageLayout::TransferSrcOptimal);
                assert_eq!(layout[dst_level as usize], ImageLayout::TransferDstOptimal);
            }
        }
    }
    for l in 0..levels {
        assert_eq!(layout[l], ImageLayout::ShaderReadOnlyOptimal);
    }
}
