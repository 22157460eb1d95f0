//! Partial writes, readback, and the round trip through the engine.

use gltex::context::{CapabilitySnapshot, Context, Extensions, GlCommand};
use gltex::error::UploadError;
use gltex::format::{
    ClientFormat, ClientFormatAny, CompressedFormat, MipmapsOption, TextureFormatRequest,
};
use gltex::texture::{new_texture, TextureAny, TextureType};
use gltex::upload::{download_compressed_data, upload_texture, Rect};
use gltex::version::{Api, Version};

fn context(api: Api, major: u32, minor: u32) -> Context {
    let caps = CapabilitySnapshot {
        version: Version { api, major, minor },
        extensions: Extensions::none(),
    };
    Context::new(caps, 4)
}

fn bytes(n: usize) -> Vec<u8> {
    let mut v = Vec::new();
    let mut i: usize = 0;
    while i < n {
        v.push((i * 7 % 251) as u8);
        i += 1;
    }
    v
}

fn plain_texture(ctxt: &mut Context, w: u32, h: u32, data: Option<Vec<u8>>) -> TextureAny {
    let payload = data.map(|d| (ClientFormatAny::ClientFormat(ClientFormat::U8U8U8U8), d));
    new_texture(
        ctxt,
        TextureFormatRequest::AnyFloatingPoint,
        payload,
        MipmapsOption::NoMipmap,
        w,
        Some(h),
        None,
        None,
        None,
    )
    .unwrap()
}

#[test]
fn write_then_read_back_round_trips() {
    // full-resource write in the exact negotiated encoding, then readback
    let mut ctxt = context(Api::Gl, 3, 3);
    let tex = plain_texture(&mut ctxt, 4, 4, Some(bytes(64)));
    let fresh = bytes(64).iter().map(|b| b.wrapping_add(1)).collect::<Vec<u8>>();
    let mip = tex.mipmap(0, 0).unwrap();
    upload_texture(
        &mip,
        &mut ctxt,
        0,
        0,
        0,
        ClientFormatAny::ClientFormat(ClientFormat::U8U8U8U8),
        &fresh,
        4,
        Some(4),
        None,
        true,
    )
    .unwrap();
    let read_back = tex.read(&mut ctxt, 0).unwrap();
    assert_eq!(read_back, fresh);
}

#[test]
fn read_returns_the_creation_data() {
    let mut ctxt = context(Api::Gl, 3, 3);
    let data = bytes(64);
    let tex = plain_texture(&mut ctxt, 4, 4, Some(data.clone()));
    assert_eq!(tex.read(&mut ctxt, 0).unwrap(), data);
}

#[test]
fn read_expands_missing_channels() {
    // three bytes per pixel read back as four, with full alpha
    let mut ctxt = context(Api::Gl, 3, 3);
    let data = vec![1u8, 2, 3, 4, 5, 6];
    let tex = new_texture(
        &mut ctxt,
        TextureFormatRequest::AnyFloatingPoint,
        Some((ClientFormatAny::ClientFormat(ClientFormat::U8U8U8), data)),
        MipmapsOption::NoMipmap,
        2,
        Some(1),
        None,
        None,
        None,
    )
    .unwrap();
    let px = tex.read(&mut ctxt, 0).unwrap();
    assert_eq!(px, vec![1, 2, 3, 255, 4, 5, 6, 255]);
}

#[test]
fn partial_write_splices_the_region() {
    // 4x4 pixels; overwrite the 2x2 region at (1, 1)
    let mut ctxt = context(Api::Gl, 3, 3);
    let tex = plain_texture(&mut ctxt, 4, 4, Some(vec![0u8; 64]));
    let patch = vec![9u8; 16];
    let mip = tex.mipmap(0, 0).unwrap();
    upload_texture(
        &mip,
        &mut ctxt,
        1,
        1,
        0,
        ClientFormatAny::ClientFormat(ClientFormat::U8U8U8U8),
        &patch,
        2,
        Some(2),
        None,
        true,
    )
    .unwrap();
    let px = tex.read(&mut ctxt, 0).unwrap();
    for row in 0..4 {
        for col in 0..4 {
            let expected = if (1..3).contains(&row) && (1..3).contains(&col) { 9 } else { 0 };
            for ch in 0..4 {
                assert_eq!(px[row * 16 + col * 4 + ch], expected, "row {row} col {col}");
            }
        }
    }
}

#[test]
fn rect_fits_is_a_boundary_test() {
    let mut ctxt = context(Api::Gl, 3, 3);
    let tex = plain_texture(&mut ctxt, 4, 4, None);
    let mip = tex.mipmap(0, 0).unwrap();
    // exactly the view bounds fits
    assert!(mip.rect_fits(Rect { left: 0, bottom: 0, width: 4, height: 4 }));
    assert!(mip.rect_fits(Rect { left: 3, bottom: 3, width: 1, height: 1 }));
    // one unit past the derived width or height does not
    assert!(!mip.rect_fits(Rect { left: 0, bottom: 0, width: 5, height: 4 }));
    assert!(!mip.rect_fits(Rect { left: 0, bottom: 0, width: 4, height: 5 }));
    assert!(!mip.rect_fits(Rect { left: 1, bottom: 0, width: 4, height: 4 }));
}

#[test]
fn boundary_write_succeeds() {
    let mut ctxt = context(Api::Gl, 3, 3);
    let tex = plain_texture(&mut ctxt, 4, 4, Some(vec![0u8; 64]));
    let mip = tex.mipmap(0, 0).unwrap();
    let r = upload_texture(
        &mip,
        &mut ctxt,
        0,
        0,
        0,
        ClientFormatAny::ClientFormat(ClientFormat::U8U8U8U8),
        &vec![1u8; 64],
        4,
        Some(4),
        None,
        true,
    );
    assert_eq!(r, Ok(()));
}

#[test]
fn incompatible_write_payload_is_rejected() {
    // float components into an integral texture
    let mut ctxt = context(Api::Gl, 3, 3);
    let tex = new_texture(
        &mut ctxt,
        TextureFormatRequest::AnyIntegral,
        None,
        MipmapsOption::NoMipmap,
        2,
        Some(2),
        None,
        None,
        None,
    )
    .unwrap();
    let mip = tex.mipmap(0, 0).unwrap();
    let r = upload_texture(
        &mip,
        &mut ctxt,
        0,
        0,
        0,
        ClientFormatAny::ClientFormat(ClientFormat::F32F32F32F32),
        &vec![0u8; 64],
        2,
        Some(2),
        None,
        false,
    );
    assert_eq!(r, Err(UploadError::IncompatibleClientFormat));
}

fn compressed_texture(ctxt: &mut Context, w: u32, h: u32) -> TextureAny {
    let payload = ClientFormatAny::CompressedFormat(CompressedFormat::S3tcDxt5Alpha);
    let len = payload.get_buffer_size(w, Some(h), None, None);
    new_texture(
        ctxt,
        TextureFormatRequest::AnyCompressed,
        Some((payload, bytes(len))),
        MipmapsOption::NoMipmap,
        w,
        Some(h),
        None,
        None,
        None,
    )
    .unwrap()
}

#[test]
fn misaligned_partial_compressed_write_is_rejected() {
    // scenario: a region off the 4x4 block grid, not covering the level
    let mut ctxt = context(Api::Gl, 3, 3);
    ctxt.caps.extensions.gl_ext_texture_compression_s3tc = true;
    let tex = compressed_texture(&mut ctxt, 8, 8);
    let mip = tex.mipmap(0, 0).unwrap();
    let payload = ClientFormatAny::CompressedFormat(CompressedFormat::S3tcDxt5Alpha);
    let len = payload.get_buffer_size(2, Some(2), None, None);
    let r = upload_texture(&mip, &mut ctxt, 1, 0, 0, payload, &bytes(len), 2, Some(2), None, false);
    assert_eq!(r, Err(UploadError::WriteRejected));
}

#[test]
fn aligned_compressed_writes_go_through() {
    let mut ctxt = context(Api::Gl, 3, 3);
    ctxt.caps.extensions.gl_ext_texture_compression_s3tc = true;
    let tex = compressed_texture(&mut ctxt, 8, 8);
    let mip = tex.mipmap(0, 0).unwrap();
    let payload = ClientFormatAny::CompressedFormat(CompressedFormat::S3tcDxt5Alpha);
    // a block-aligned partial region
    let partial = payload.get_buffer_size(4, Some(4), None, None);
    let r = upload_texture(
        &mip, &mut ctxt, 4, 0, 0, payload, &bytes(partial), 4, Some(4), None, false,
    );
    assert_eq!(r, Ok(()));
    // full replacement is always alignment-safe
    let full = payload.get_buffer_size(8, Some(8), None, None);
    let r2 = upload_texture(&mip, &mut ctxt, 0, 0, 0, payload, &bytes(full), 8, Some(8), None, false);
    assert_eq!(r2, Ok(()));
}

#[test]
fn compressed_readback_returns_format_and_payload() {
    let mut ctxt = context(Api::Gl, 3, 3);
    ctxt.caps.extensions.gl_ext_texture_compression_s3tc = true;
    let payload = ClientFormatAny::CompressedFormat(CompressedFormat::S3tcDxt5Alpha);
    let len = payload.get_buffer_size(8, Some(8), None, None);
    let data = bytes(len);
    let tex = new_texture(
        &mut ctxt,
        TextureFormatRequest::AnyCompressed,
        Some((payload, data.clone())),
        MipmapsOption::NoMipmap,
        8,
        Some(8),
        None,
        None,
        None,
    )
    .unwrap();
    let mip = tex.mipmap(0, 0).unwrap();
    let (fmt, read_back) = download_compressed_data(&mip, &mut ctxt).unwrap();
    assert_eq!(fmt, payload);
    assert_eq!(read_back, data);
}

#[test]
fn generic_compression_reads_back_as_no_data() {
    // scenario: the stored internal format is a generic compression the
    // driver chose, not a recognized standard one
    let mut ctxt = context(Api::Gl, 3, 3);
    let tex = new_texture(
        &mut ctxt,
        TextureFormatRequest::AnyCompressed,
        None,
        MipmapsOption::NoMipmap,
        8,
        Some(8),
        None,
        None,
        None,
    )
    .unwrap();
    let mip = tex.mipmap(0, 0).unwrap();
    assert_eq!(download_compressed_data(&mip, &mut ctxt), None);
}

#[test]
fn uncompressed_texture_has_no_compressed_readback() {
    let mut ctxt = context(Api::Gl, 3, 3);
    let tex = plain_texture(&mut ctxt, 4, 4, Some(bytes(64)));
    let mip = tex.mipmap(0, 0).unwrap();
    assert_eq!(download_compressed_data(&mip, &mut ctxt), None);
}

#[test]
fn base_level_write_regenerates_mipmaps() {
    let mut ctxt = context(Api::Gl, 3, 3);
    let tex = new_texture(
        &mut ctxt,
        TextureFormatRequest::AnyFloatingPoint,
        Some((ClientFormatAny::ClientFormat(ClientFormat::U8U8U8U8), bytes(64))),
        MipmapsOption::AutoGeneratedMipmaps,
        4,
        Some(4),
        None,
        None,
        None,
    )
    .unwrap();
    let mip = tex.mipmap(0, 0).unwrap();
    upload_texture(
        &mip,
        &mut ctxt,
        0,
        0,
        0,
        ClientFormatAny::ClientFormat(ClientFormat::U8U8U8U8),
        &bytes(64),
        4,
        Some(4),
        None,
        true,
    )
    .unwrap();
    assert_eq!(*ctxt.issued.last().unwrap(), GlCommand::GenerateMipmap(TextureType::Texture2d));
}

#[test]
fn staging_into_a_pixel_buffer_returns_at_once() {
    let mut ctxt = context(Api::Gl, 3, 3);
    let tex = plain_texture(&mut ctxt, 4, 2, Some(bytes(32)));
    let pb = tex.read_to_pixel_buffer(&mut ctxt, 0);
    assert_eq!(pb.len, 32);
    // the transfer buffer stays bound for pixel pack
    assert_eq!(ctxt.state.pixel_pack_buffer, pb.id);
    let n = ctxt.issued.len();
    assert_eq!(ctxt.issued[n - 2], GlCommand::GenPixelBuffer { id: pb.id, len: 32 });
    assert!(matches!(ctxt.issued[n - 1], GlCommand::ReadPixelsIntoBuffer { .. }));
}

#[test]
fn writes_to_other_levels_leave_the_base_contents() {
    let mut ctxt = context(Api::Gl, 3, 3);
    let data = bytes(64);
    let tex = new_texture(
        &mut ctxt,
        TextureFormatRequest::AnyFloatingPoint,
        Some((ClientFormatAny::ClientFormat(ClientFormat::U8U8U8U8), data.clone())),
        MipmapsOption::EmptyMipmaps,
        4,
        Some(4),
        None,
        None,
        None,
    )
    .unwrap();
    let level1 = tex.mipmap(0, 1).unwrap();
    upload_texture(
        &level1,
        &mut ctxt,
        0,
        0,
        0,
        ClientFormatAny::ClientFormat(ClientFormat::U8U8U8U8),
        &bytes(16),
        2,
        Some(2),
        None,
        false,
    )
    .unwrap();
    assert_eq!(tex.read(&mut ctxt, 0).unwrap(), data);
}

#[test]
fn partial_write_in_another_encoding_is_normalized_and_spliced() {
    // a single-byte-per-pixel patch lands in a four-byte texture: each
    // patch pixel becomes (value, 0, 0, 255); everything outside the
    // destination region keeps its bytes
    let mut ctxt = context(Api::Gl, 3, 3);
    let tex = plain_texture(&mut ctxt, 4, 4, Some(vec![1u8; 64]));
    let mip = tex.mipmap(0, 0).unwrap();
    upload_texture(
        &mip,
        &mut ctxt,
        0,
        0,
        0,
        ClientFormatAny::ClientFormat(ClientFormat::U8),
        &vec![7u8; 4],
        2,
        Some(2),
        None,
        false,
    )
    .unwrap();
    let px = tex.read(&mut ctxt, 0).unwrap();
    for row in 0..4 {
        for col in 0..4 {
            let expected: [u8; 4] = if row < 2 && col < 2 { [7, 0, 0, 255] } else { [1, 1, 1, 1] };
            for ch in 0..4 {
                assert_eq!(px[row * 16 + col * 4 + ch], expected[ch], "row {row} col {col}");
            }
        }
    }
}

#[test]
fn sixteen_bit_contents_read_back_as_high_bytes() {
    // components lie little-endian in client memory; the high byte of
    // each is kept on normalization
    let mut ctxt = context(Api::Gl, 3, 3);
    let data = vec![0x11u8, 0xAA, 0x22, 0xBB, 0x33, 0xCC, 0x44, 0xDD];
    let tex = new_texture(
        &mut ctxt,
        TextureFormatRequest::AnyFloatingPoint,
        Some((ClientFormatAny::ClientFormat(ClientFormat::U16U16U16U16), data)),
        MipmapsOption::NoMipmap,
        1,
        Some(1),
        None,
        None,
        None,
    )
    .unwrap();
    assert_eq!(tex.read(&mut ctxt, 0).unwrap(), vec![0xAA, 0xBB, 0xCC, 0xDD]);
}

#[test]
fn thirty_two_bit_contents_read_back_as_high_bytes() {
    let mut ctxt = context(Api::Gl, 3, 3);
    let data = vec![0x01u8, 0x02, 0x03, 0x9A, 0x05, 0x06, 0x07, 0x9B];
    let tex = new_texture(
        &mut ctxt,
        TextureFormatRequest::AnyFloatingPoint,
        Some((ClientFormatAny::ClientFormat(ClientFormat::U32), data)),
        MipmapsOption::NoMipmap,
        2,
        Some(1),
        None,
        None,
        None,
    )
    .unwrap();
    assert_eq!(tex.read(&mut ctxt, 0).unwrap(), vec![0x9A, 0, 0, 255, 0x9B, 0, 0, 255]);
}

#[test]
fn floating_point_contents_are_not_modelled() {
    // floating-point decode is outside the model: the contents stay
    // untracked and the readback reports no data
    let mut ctxt = context(Api::Gl, 3, 3);
    let tex = new_texture(
        &mut ctxt,
        TextureFormatRequest::AnyFloatingPoint,
        Some((ClientFormatAny::ClientFormat(ClientFormat::F32F32F32F32), vec![0u8; 16])),
        MipmapsOption::NoMipmap,
        1,
        Some(1),
        None,
        None,
        None,
    )
    .unwrap();
    assert_eq!(tex.read(&mut ctxt, 0), None);
}

#[test]
fn three_d_read_returns_the_first_plane() {
    let mut ctxt = context(Api::Gl, 3, 3);
    let mut data = vec![10u8; 8];
    data.extend_from_slice(&[20u8; 8]);
    let tex = new_texture(
        &mut ctxt,
        TextureFormatRequest::AnyFloatingPoint,
        Some((ClientFormatAny::ClientFormat(ClientFormat::U8U8U8U8), data)),
        MipmapsOption::NoMipmap,
        2,
        Some(1),
        Some(2),
        None,
        None,
    )
    .unwrap();
    assert_eq!(tex.read(&mut ctxt, 0).unwrap(), vec![10u8; 8]);
}

#[test]
fn one_d_array_read_returns_the_first_layer() {
    let mut ctxt = context(Api::Gl, 3, 3);
    let mut data = vec![30u8; 8];
    data.extend_from_slice(&[40u8; 8]);
    let tex = new_texture(
        &mut ctxt,
        TextureFormatRequest::AnyFloatingPoint,
        Some((ClientFormatAny::ClientFormat(ClientFormat::U8U8U8U8), data)),
        MipmapsOption::NoMipmap,
        2,
        None,
        None,
        Some(2),
        None,
    )
    .unwrap();
    assert_eq!(tex.read(&mut ctxt, 0).unwrap(), vec![30u8; 8]);
}

#[test]
fn mismatched_compressed_payload_is_rejected() {
    // a compressed sub-image upload must carry the destination's own
    // internal format; the backend rejects anything else
    let mut ctxt = context(Api::Gl, 3, 3);
    ctxt.caps.extensions.gl_ext_texture_compression_s3tc = true;
    let tex = compressed_texture(&mut ctxt, 8, 8);
    let mip = tex.mipmap(0, 0).unwrap();
    let other = ClientFormatAny::CompressedFormat(CompressedFormat::S3tcDxt1Alpha);
    let len = other.get_buffer_size(8, Some(8), None, None);
    let r = upload_texture(&mip, &mut ctxt, 0, 0, 0, other, &bytes(len), 8, Some(8), None, false);
    assert_eq!(r, Err(UploadError::WriteRejected));
}

#[test]
fn aligned_partial_compressed_write_is_spliced_into_the_payload() {
    // the 8x8 level is a 2x2 grid of sixteen-byte blocks; replacing the
    // block at (4, 0) replaces exactly the second block of the payload
    let mut ctxt = context(Api::Gl, 3, 3);
    ctxt.caps.extensions.gl_ext_texture_compression_s3tc = true;
    let payload = ClientFormatAny::CompressedFormat(CompressedFormat::S3tcDxt5Alpha);
    let full = bytes(64);
    let tex = new_texture(
        &mut ctxt,
        TextureFormatRequest::AnyCompressed,
        Some((payload, full.clone())),
        MipmapsOption::NoMipmap,
        8,
        Some(8),
        None,
        None,
        None,
    )
    .unwrap();
    let mip = tex.mipmap(0, 0).unwrap();
    let patch = vec![0xEEu8; 16];
    upload_texture(&mip, &mut ctxt, 4, 0, 0, payload, &patch, 4, Some(4), None, false).unwrap();
    let (fmt, read_back) = download_compressed_data(&mip, &mut ctxt).unwrap();
    assert_eq!(fmt, payload);
    let mut expected = full;
    expected[16..32].copy_from_slice(&patch);
    assert_eq!(read_back, expected);
}

#[test]
fn compressed_readback_of_a_higher_level_reports_no_data() {
    // payloads of levels above the base live only driver-side
    let mut ctxt = context(Api::Gl, 3, 3);
    ctxt.caps.extensions.gl_ext_texture_compression_s3tc = true;
    let payload = ClientFormatAny::CompressedFormat(CompressedFormat::S3tcDxt5Alpha);
    let len = payload.get_buffer_size(8, Some(8), None, None);
    let tex = new_texture(
        &mut ctxt,
        TextureFormatRequest::AnyCompressed,
        Some((payload, bytes(len))),
        MipmapsOption::EmptyMipmaps,
        8,
        Some(8),
        None,
        None,
        None,
    )
    .unwrap();
    let level1 = tex.mipmap(0, 1).unwrap();
    assert_eq!(download_compressed_data(&level1, &mut ctxt), None);
    // the base level still answers
    let base = tex.mipmap(0, 0).unwrap();
    assert!(download_compressed_data(&base, &mut ctxt).is_some());
}

#[test]
fn readback_forces_tight_pack_alignment() {
    let mut ctxt = context(Api::Gl, 3, 3);
    let tex = plain_texture(&mut ctxt, 4, 4, Some(bytes(64)));
    assert_eq!(ctxt.state.pack_alignment, 4);
    tex.read(&mut ctxt, 0).unwrap();
    assert_eq!(ctxt.state.pack_alignment, 1);
    assert_eq!(ctxt.state.pixel_pack_buffer, 0);
}
