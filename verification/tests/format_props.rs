//! Mipmap-level arithmetic and payload buffer sizes.

use gltex::format::{ClientFormat, ClientFormatAny, CompressedFormat, MipmapsOption};

#[test]
fn auto_mipmaps_full_chain_square() {
    // 4 -> 2 -> 1
    let n = MipmapsOption::AutoGeneratedMipmaps.num_levels(4, Some(4), None);
    assert_eq!(n, 3);
}

#[test]
fn auto_mipmaps_uses_largest_axis() {
    // floor(log2(1024)) + 1
    let n = MipmapsOption::AutoGeneratedMipmaps.num_levels(1024, Some(1), None);
    assert_eq!(n, 11);
    let m = MipmapsOption::AutoGeneratedMipmaps.num_levels(2, Some(512), Some(64));
    assert_eq!(m, 10);
}

#[test]
fn no_mipmap_is_one_level() {
    assert_eq!(MipmapsOption::NoMipmap.num_levels(1024, Some(768), None), 1);
    assert_eq!(MipmapsOption::NoMipmap.num_levels(1, None, None), 1);
}

#[test]
fn empty_mipmaps_match_the_auto_chain() {
    assert_eq!(MipmapsOption::EmptyMipmaps.num_levels(64, Some(32), None), 7);
}

#[test]
fn explicit_level_count_is_clamped() {
    // explicit counts are clamped to at least one and at most the chain
    assert_eq!(MipmapsOption::AutoGeneratedMipmapsMax(0).num_levels(16, Some(16), None), 1);
    assert_eq!(MipmapsOption::AutoGeneratedMipmapsMax(2).num_levels(16, Some(16), None), 2);
    assert_eq!(MipmapsOption::EmptyMipmapsMax(99).num_levels(16, Some(16), None), 5);
}

#[test]
fn zero_extent_still_has_one_level() {
    assert_eq!(MipmapsOption::AutoGeneratedMipmaps.num_levels(0, None, None), 1);
}

#[test]
fn should_generate_only_for_auto_policies() {
    assert!(MipmapsOption::AutoGeneratedMipmaps.should_generate());
    assert!(MipmapsOption::AutoGeneratedMipmapsMax(3).should_generate());
    assert!(!MipmapsOption::NoMipmap.should_generate());
    assert!(!MipmapsOption::EmptyMipmaps.should_generate());
    assert!(!MipmapsOption::EmptyMipmapsMax(3).should_generate());
}

#[test]
fn uncompressed_buffer_size_is_exact() {
    let f = ClientFormatAny::ClientFormat(ClientFormat::U8U8U8U8);
    assert_eq!(f.get_buffer_size(4, Some(4), None, None), 64);
    let g = ClientFormatAny::ClientFormat(ClientFormat::U8U8U8);
    assert_eq!(g.get_buffer_size(5, Some(3), None, None), 45);
    // depth and array layers multiply in
    assert_eq!(f.get_buffer_size(2, Some(2), Some(2), None), 32);
    assert_eq!(f.get_buffer_size(8, None, None, Some(5)), 160);
}

#[test]
fn compressed_buffer_size_counts_blocks() {
    // one 4x4 block of eight bytes
    let dxt1 = ClientFormatAny::CompressedFormat(CompressedFormat::S3tcDxt1NoAlpha);
    assert_eq!(dxt1.get_buffer_size(4, Some(4), None, None), 8);
    // 5x5 texels cover 2x2 blocks of sixteen bytes
    let dxt5 = ClientFormatAny::CompressedFormat(CompressedFormat::S3tcDxt5Alpha);
    assert_eq!(dxt5.get_buffer_size(5, Some(5), None, None), 64);
    assert_eq!(dxt5.get_buffer_size(8, Some(8), None, None), 64);
}

#[test]
fn zero_axis_needs_no_bytes() {
    let f = ClientFormatAny::ClientFormat(ClientFormat::U8);
    assert_eq!(f.get_buffer_size(0, Some(7), None, None), 0);
    let c = ClientFormatAny::CompressedFormat(CompressedFormat::S3tcDxt3Alpha);
    assert_eq!(c.get_buffer_size(0, Some(8), None, None), 0);
}

#[test]
fn compressed_payloads_are_flagged() {
    assert!(ClientFormatAny::CompressedFormat(CompressedFormat::S3tcDxt1Alpha).is_compressed());
    assert!(!ClientFormatAny::ClientFormat(ClientFormat::U16).is_compressed());
}
