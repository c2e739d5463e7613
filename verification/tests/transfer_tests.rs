use rendercore::staging::{copy_region, read_back, staged_upload, whole_buffer_copy, write_bytes};
use rendercore::texture::{fill_texture_staging, row_pitch};

fn roundtrip(len: usize) {
    let data: Vec<u8> = (0..len).map(|i| (i % 251) as u8).collect();
    let device_local = staged_upload(&data);
    let mirror = read_back(&device_local, 0, device_local.len());
    assert_eq!(mirror, data);
}

#[test]
fn staged_roundtrip_one_byte() {
    roundtrip(1);
}

#[test]
fn staged_roundtrip_odd_size() {
    roundtrip(63);
}

#[test]
fn staged_roundtrip_page() {
    roundtrip(4096);
}

#[test]
fn staged_roundtrip_megabyte() {
    roundtrip(1 << 20);
}

#[test]
fn write_bytes_updates_only_the_range() {
    let mut buf = vec![0xAAu8; 8];
    write_bytes(&mut buf, 2, &[1, 2, 3]);
    assert_eq!(buf, vec![0xAA, 0xAA, 1, 2, 3, 0xAA, 0xAA, 0xAA]);
}

#[test]
fn copy_region_moves_exact_bytes() {
    let src = vec![10u8, 20, 30, 40, 50];
    let mut dst = vec![0u8; 6];
    let c = whole_buffer_copy(5);
    assert_eq!(c.src_offset, 0);
    assert_eq!(c.dst_offset, 0);
    copy_region(&src, &mut dst, &c);
    assert_eq!(dst, vec![10, 20, 30, 40, 50, 0]);
}

#[test]
fn read_back_partial_range() {
    let buf = vec![9u8, 8, 7, 6, 5];
    assert_eq!(read_back(&buf, 1, 3), vec![8, 7, 6]);
}

#[test]
fn row_pitch_rounds_up_to_alignment() {
    // 10 pixels * 4 bytes = 40 bytes, aligned up to 64.
    assert_eq!(row_pitch(10, 64), 64);
    // Already aligned rows stay put.
    assert_eq!(row_pitch(16, 64), 64);
    assert_eq!(row_pitch(64, 256), 256);
    // Alignment 1 never pads.
    assert_eq!(row_pitch(13, 1), 52);
}

#[test]
fn texture_staging_pads_each_row_with_zeros() {
    // 2 x 2 pixels, 4 bytes each; pitch 16 leaves 8 bytes of padding per row.
    let pixels: Vec<u8> = (1..=16).collect();
    let staged = fill_texture_staging(&pixels, 2, 2, 16);
    assert_eq!(staged.len(), 32);
    assert_eq!(&staged[0..8], &pixels[0..8]);
    assert_eq!(&staged[8..16], &[0u8; 8]);
    assert_eq!(&staged[16..24], &pixels[8..16]);
    assert_eq!(&staged[24..32], &[0u8; 8]);
}

#[test]
fn texture_staging_tight_pitch_is_identity() {
    let pixels: Vec<u8> = (0..24).collect();
    // 3 pixels wide, pitch exactly 12 bytes: no padding at all.
    let staged = fill_texture_staging(&pixels, 3, 2, 12);
    assert_eq!(staged, pixels);
}
