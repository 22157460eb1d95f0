//! Format negotiation against capability snapshots.

use gltex::context::{CapabilitySnapshot, Extensions};
use gltex::error::TextureCreationError;
use gltex::format::{
    ClientFormat, ClientFormatAny, CompressedFormat, InternalFormat, TextureFormat,
    TextureFormatRequest, TransferFormat, TransferType, UncompressedFloatFormat,
};
use gltex::negotiate::negotiate;
use gltex::version::{Api, Version};

fn snapshot(api: Api, major: u32, minor: u32) -> CapabilitySnapshot {
    CapabilitySnapshot { version: Version { api, major, minor }, extensions: Extensions::none() }
}

#[test]
fn wildcard_negotiation_is_idempotent() {
    let caps = snapshot(Api::Gl, 3, 3);
    let first = negotiate(&caps, TextureFormatRequest::AnyFloatingPoint, None);
    let second = negotiate(&caps, TextureFormatRequest::AnyFloatingPoint, None);
    assert_eq!(first, second);
    let with_client = Some(ClientFormatAny::ClientFormat(ClientFormat::U8U8U8));
    let third = negotiate(&caps, TextureFormatRequest::AnyFloatingPoint, with_client);
    let fourth = negotiate(&caps, TextureFormatRequest::AnyFloatingPoint, with_client);
    assert_eq!(third, fourth);
}

#[test]
fn wildcard_compressed_without_support_is_unsupported() {
    // a snapshot with no compressed-format support at all
    let caps = snapshot(Api::Gl, 1, 2);
    let r = negotiate(&caps, TextureFormatRequest::AnyCompressed, None);
    assert_eq!(r, Err(TextureCreationError::UnsupportedFormat));
}

#[test]
fn wildcard_compressed_prefers_standard_compression() {
    let mut caps = snapshot(Api::Gl, 3, 0);
    caps.extensions.gl_ext_texture_compression_s3tc = true;
    let r = negotiate(&caps, TextureFormatRequest::AnyCompressed, None).unwrap();
    assert_eq!(r.teximg_format, InternalFormat::CompressedRgbaS3tcDxt5);
    // without the extension the driver picks a generic scheme
    let generic = negotiate(&snapshot(Api::Gl, 3, 0), TextureFormatRequest::AnyCompressed, None)
        .unwrap();
    assert_eq!(generic.teximg_format, InternalFormat::CompressedRgba);
}

#[test]
fn plain_color_format_depends_on_sized_support() {
    let new = negotiate(&snapshot(Api::Gl, 3, 0), TextureFormatRequest::AnyFloatingPoint, None)
        .unwrap();
    assert_eq!(new.teximg_format, InternalFormat::Rgba8);
    let old = negotiate(&snapshot(Api::Gl, 1, 1), TextureFormatRequest::AnyFloatingPoint, None)
        .unwrap();
    assert_eq!(old.teximg_format, InternalFormat::Rgba);
}

#[test]
fn storage_format_present_only_with_immutable_storage() {
    let modern = negotiate(&snapshot(Api::Gl, 4, 2), TextureFormatRequest::AnyFloatingPoint, None)
        .unwrap();
    assert_eq!(modern.storage_format, Some(InternalFormat::Rgba8));
    let older = negotiate(&snapshot(Api::Gl, 3, 3), TextureFormatRequest::AnyFloatingPoint, None)
        .unwrap();
    assert_eq!(older.storage_format, None);
    // an unsized format never gets preallocated storage
    let unsized_pick = negotiate(
        &snapshot(Api::Gl, 1, 5),
        TextureFormatRequest::AnyFloatingPoint,
        None,
    )
    .unwrap();
    assert_eq!(unsized_pick.storage_format, None);
}

#[test]
fn depth_requests_take_only_depth_layouts() {
    let mut caps = snapshot(Api::Gl, 3, 0);
    caps.extensions.gl_arb_depth_texture = true;
    let ok = negotiate(
        &caps,
        TextureFormatRequest::AnyDepth,
        Some(ClientFormatAny::ClientFormat(ClientFormat::F32)),
    )
    .unwrap();
    let t = ok.transfer.unwrap();
    assert_eq!(t.format, TransferFormat::DepthComponent);
    assert_eq!(t.ty, TransferType::F32);
    let bad = negotiate(
        &caps,
        TextureFormatRequest::AnyDepth,
        Some(ClientFormatAny::ClientFormat(ClientFormat::U8U8U8U8)),
    );
    assert_eq!(bad, Err(TextureCreationError::IncompatibleClientFormat));
}

#[test]
fn integral_requests_reject_float_components() {
    let caps = snapshot(Api::Gl, 3, 0);
    let bad = negotiate(
        &caps,
        TextureFormatRequest::AnyIntegral,
        Some(ClientFormatAny::ClientFormat(ClientFormat::F32F32F32F32)),
    );
    assert_eq!(bad, Err(TextureCreationError::IncompatibleClientFormat));
    let ok = negotiate(
        &caps,
        TextureFormatRequest::AnyIntegral,
        Some(ClientFormatAny::ClientFormat(ClientFormat::U32U32U32U32)),
    )
    .unwrap();
    let t = ok.transfer.unwrap();
    assert_eq!(t.format, TransferFormat::RgbaInteger);
    assert_eq!(t.ty, TransferType::U32);
}

#[test]
fn default_transfer_encoding_follows_the_request_kind() {
    let mut caps = snapshot(Api::Gl, 3, 0);
    caps.extensions.gl_arb_depth_texture = true;
    let depth = negotiate(&caps, TextureFormatRequest::AnyDepth, None).unwrap();
    assert_eq!(
        depth.transfer.unwrap(),
        gltex::format::TransferParams { format: TransferFormat::DepthComponent, ty: TransferType::F32 }
    );
    let color = negotiate(&caps, TextureFormatRequest::AnyFloatingPoint, None).unwrap();
    assert_eq!(
        color.transfer.unwrap(),
        gltex::format::TransferParams { format: TransferFormat::Rgba, ty: TransferType::U8 }
    );
}

#[test]
fn compressed_payload_must_match_the_request() {
    let mut caps = snapshot(Api::Gl, 3, 0);
    caps.extensions.gl_ext_texture_compression_s3tc = true;
    let payload = Some(ClientFormatAny::CompressedFormat(CompressedFormat::S3tcDxt3Alpha));
    // matching wildcard: the payload's own format is stored
    let ok = negotiate(&caps, TextureFormatRequest::AnyCompressed, payload).unwrap();
    assert_eq!(ok.teximg_format, InternalFormat::CompressedRgbaS3tcDxt3);
    assert_eq!(ok.transfer, None);
    // a non-compressed request cannot take a compressed payload
    let bad = negotiate(&caps, TextureFormatRequest::AnyFloatingPoint, payload);
    assert_eq!(bad, Err(TextureCreationError::IncompatibleClientFormat));
    // a different specific compressed format does not match either
    let other = negotiate(
        &caps,
        TextureFormatRequest::Specific(TextureFormat::CompressedFormat(
            CompressedFormat::S3tcDxt1Alpha,
        )),
        payload,
    );
    assert_eq!(other, Err(TextureCreationError::IncompatibleClientFormat));
}

#[test]
fn compressed_payload_needs_standard_compression_support() {
    let caps = snapshot(Api::Gl, 3, 0);
    let payload = Some(ClientFormatAny::CompressedFormat(CompressedFormat::S3tcDxt3Alpha));
    let r = negotiate(&caps, TextureFormatRequest::AnyCompressed, payload);
    assert_eq!(r, Err(TextureCreationError::UnsupportedFormat));
}

#[test]
fn specific_format_validated_against_snapshot() {
    let old = snapshot(Api::Gl, 2, 1);
    let float32 = TextureFormatRequest::Specific(TextureFormat::UncompressedFloat(
        UncompressedFloatFormat::F32F32F32F32,
    ));
    assert_eq!(negotiate(&old, float32, None), Err(TextureCreationError::UnsupportedFormat));
    let ok = negotiate(&snapshot(Api::Gl, 3, 0), float32, None).unwrap();
    assert_eq!(ok.teximg_format, InternalFormat::Rgba32f);
}

#[test]
fn versions_of_different_flavours_are_incomparable() {
    let es = Version { api: Api::GlEs, major: 3, minor: 1 };
    assert!(!es.at_least(Api::Gl, 2, 0));
    assert!(es.at_least(Api::GlEs, 3, 0));
    assert!(es.at_least(Api::GlEs, 3, 1));
    assert!(!es.at_least(Api::GlEs, 3, 2));
    let gl = Version { api: Api::Gl, major: 4, minor: 0 };
    assert!(gl.at_least(Api::Gl, 3, 3));
    assert!(!gl.at_least(Api::GlEs, 2, 0));
}

#[test]
fn srgb_needs_srgb_support() {
    assert_eq!(
        negotiate(&snapshot(Api::Gl, 2, 0), TextureFormatRequest::AnySrgb, None),
        Err(TextureCreationError::UnsupportedFormat)
    );
    let ok = negotiate(&snapshot(Api::Gl, 2, 1), TextureFormatRequest::AnySrgb, None).unwrap();
    assert_eq!(ok.teximg_format, InternalFormat::Srgb8Alpha8);
}
