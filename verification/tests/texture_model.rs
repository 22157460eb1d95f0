//! Texture creation, views, lifecycle, and the issued driver commands.

use gltex::context::{CapabilitySnapshot, Context, Extensions, GlCommand};
use gltex::error::{TextureCreationError, TextureMaybeSupportedCreationError};
use gltex::format::{
    ClientFormat, ClientFormatAny, CompressedFormat, InternalFormat, MipmapsOption,
    TextureFormatRequest,
};
use gltex::texture::{new_texture, TextureType};
use gltex::version::{Api, Version};

fn context(api: Api, major: u32, minor: u32) -> Context {
    let caps = CapabilitySnapshot {
        version: Version { api, major, minor },
        extensions: Extensions::none(),
    };
    Context::new(caps, 4)
}

fn rgba_bytes(pixels: usize) -> Vec<u8> {
    let mut v = Vec::new();
    let mut i: usize = 0;
    while i < pixels * 4 {
        v.push((i % 251) as u8);
        i += 1;
    }
    v
}

#[test]
fn two_d_float_texture_has_three_levels() {
    // 4x4 with automatic mipmaps: 4 -> 2 -> 1
    let mut ctxt = context(Api::Gl, 3, 3);
    let tex = new_texture(
        &mut ctxt,
        TextureFormatRequest::AnyFloatingPoint,
        Some((ClientFormatAny::ClientFormat(ClientFormat::U8U8U8U8), rgba_bytes(16))),
        MipmapsOption::AutoGeneratedMipmaps,
        4,
        Some(4),
        None,
        None,
        None,
    )
    .unwrap();
    assert_eq!(tex.get_mipmap_levels(), 3);
    assert_eq!(tex.get_texture_type(), TextureType::Texture2d);
    assert_eq!(tex.get_width(), 4);
    assert_eq!(tex.get_height(), Some(4));
    // the creation ends in exactly one synchronous regeneration
    assert_eq!(*ctxt.issued.last().unwrap(), GlCommand::GenerateMipmap(TextureType::Texture2d));
}

#[test]
fn one_d_array_views_check_the_layer() {
    let mut ctxt = context(Api::Gl, 3, 3);
    let tex = new_texture(
        &mut ctxt,
        TextureFormatRequest::AnyFloatingPoint,
        None,
        MipmapsOption::NoMipmap,
        8,
        None,
        None,
        Some(5),
        None,
    )
    .unwrap();
    assert_eq!(tex.get_texture_type(), TextureType::Texture1dArray);
    assert!(tex.mipmap(4, 0).is_some());
    assert!(tex.mipmap(5, 0).is_none());
}

#[test]
fn views_shrink_each_axis_but_never_below_one() {
    let mut ctxt = context(Api::Gl, 3, 3);
    let tex = new_texture(
        &mut ctxt,
        TextureFormatRequest::AnyFloatingPoint,
        None,
        MipmapsOption::EmptyMipmaps,
        8,
        Some(2),
        None,
        None,
        None,
    )
    .unwrap();
    assert_eq!(tex.get_mipmap_levels(), 4);
    let level2 = tex.mipmap(0, 2).unwrap();
    assert_eq!(level2.width, 2);
    assert_eq!(level2.height, Some(1));
    let level3 = tex.mipmap(0, 3).unwrap();
    assert_eq!(level3.width, 1);
    assert_eq!(level3.height, Some(1));
    assert_eq!(level3.get_level(), 3);
    assert_eq!(level3.get_layer(), 0);
    assert!(tex.mipmap(0, 4).is_none());
    assert!(tex.mipmap(1, 0).is_none());
}

#[test]
fn legacy_hardware_rejects_odd_dimensions() {
    let mut ctxt = context(Api::Gl, 1, 5);
    let r = new_texture(
        &mut ctxt,
        TextureFormatRequest::AnyFloatingPoint,
        None,
        MipmapsOption::NoMipmap,
        3,
        Some(4),
        None,
        None,
        None,
    );
    assert_eq!(
        r.unwrap_err(),
        TextureMaybeSupportedCreationError::CreationError(
            TextureCreationError::DimensionsNotSupported
        )
    );
    // nothing was issued on the failed creation
    assert!(ctxt.issued.is_empty());
}

#[test]
fn power_of_two_dimensions_pass_legacy_hardware() {
    let mut ctxt = context(Api::Gl, 1, 5);
    let r = new_texture(
        &mut ctxt,
        TextureFormatRequest::AnyFloatingPoint,
        None,
        MipmapsOption::NoMipmap,
        4,
        Some(8),
        None,
        None,
        None,
    );
    assert!(r.is_ok());
}

#[test]
fn unsupported_wildcard_propagates_from_negotiation() {
    // scenario: any-compressed on a snapshot without compressed formats
    let mut ctxt = context(Api::Gl, 1, 2);
    let r = new_texture(
        &mut ctxt,
        TextureFormatRequest::AnyCompressed,
        None,
        MipmapsOption::NoMipmap,
        4,
        Some(4),
        None,
        None,
        None,
    );
    assert_eq!(
        r.unwrap_err(),
        TextureMaybeSupportedCreationError::CreationError(TextureCreationError::UnsupportedFormat)
    );
}

#[test]
fn multisample_needs_driver_support() {
    let mut old = context(Api::Gl, 3, 0);
    let r = new_texture(
        &mut old,
        TextureFormatRequest::AnyFloatingPoint,
        None,
        MipmapsOption::NoMipmap,
        64,
        Some(64),
        None,
        None,
        Some(4),
    );
    assert_eq!(r.unwrap_err(), TextureMaybeSupportedCreationError::NotSupported);
    let mut modern = context(Api::Gl, 3, 2);
    let tex = new_texture(
        &mut modern,
        TextureFormatRequest::AnyFloatingPoint,
        None,
        MipmapsOption::NoMipmap,
        64,
        Some(64),
        None,
        None,
        Some(4),
    )
    .unwrap();
    assert_eq!(tex.get_texture_type(), TextureType::Texture2dMultisample);
}

#[test]
fn regeneration_needs_driver_support() {
    // automatic mipmaps on a driver without any regeneration entry point
    let mut ctxt = context(Api::Gl, 1, 5);
    let r = new_texture(
        &mut ctxt,
        TextureFormatRequest::AnyFloatingPoint,
        Some((ClientFormatAny::ClientFormat(ClientFormat::U8U8U8U8), rgba_bytes(16))),
        MipmapsOption::AutoGeneratedMipmaps,
        4,
        Some(4),
        None,
        None,
        None,
    );
    assert_eq!(r.unwrap_err(), TextureMaybeSupportedCreationError::NotSupported);
}

#[test]
fn creation_forces_byte_alignment_exactly_once() {
    let mut ctxt = context(Api::Gl, 3, 3);
    new_texture(
        &mut ctxt,
        TextureFormatRequest::AnyFloatingPoint,
        None,
        MipmapsOption::NoMipmap,
        4,
        Some(4),
        None,
        None,
        None,
    )
    .unwrap();
    // the driver default of four differs, so the preamble sets it
    assert_eq!(ctxt.issued[0], GlCommand::SetUnpackAlignment(1));
    assert_eq!(ctxt.state.unpack_alignment, 1);
    let issued_before = ctxt.issued.len();
    new_texture(
        &mut ctxt,
        TextureFormatRequest::AnyFloatingPoint,
        None,
        MipmapsOption::NoMipmap,
        4,
        Some(4),
        None,
        None,
        None,
    )
    .unwrap();
    // the state already matches: no redundant alignment command
    let second = &ctxt.issued[issued_before..];
    assert!(!second.contains(&GlCommand::SetUnpackAlignment(1)));
}

#[test]
fn preallocated_storage_is_used_when_available() {
    let mut modern = context(Api::Gl, 4, 5);
    new_texture(
        &mut modern,
        TextureFormatRequest::AnyFloatingPoint,
        None,
        MipmapsOption::NoMipmap,
        8,
        Some(8),
        None,
        None,
        None,
    )
    .unwrap();
    let has_storage = modern.issued.iter().any(|c| matches!(c, GlCommand::TexStorage { .. }));
    let has_teximage = modern.issued.iter().any(|c| matches!(c, GlCommand::TexImage { .. }));
    assert!(has_storage && !has_teximage);

    let mut older = context(Api::Gl, 3, 3);
    new_texture(
        &mut older,
        TextureFormatRequest::AnyFloatingPoint,
        None,
        MipmapsOption::NoMipmap,
        8,
        Some(8),
        None,
        None,
        None,
    )
    .unwrap();
    let has_storage = older.issued.iter().any(|c| matches!(c, GlCommand::TexStorage { .. }));
    let has_teximage = older.issued.iter().any(|c| matches!(c, GlCommand::TexImage { .. }));
    assert!(!has_storage && has_teximage);
}

#[test]
fn zero_extent_allocates_one_and_skips_the_upload() {
    let mut ctxt = context(Api::Gl, 3, 3);
    new_texture(
        &mut ctxt,
        TextureFormatRequest::AnyFloatingPoint,
        Some((ClientFormatAny::ClientFormat(ClientFormat::U8U8U8U8), Vec::new())),
        MipmapsOption::NoMipmap,
        0,
        Some(4),
        None,
        None,
        None,
    )
    .unwrap();
    let alloc = ctxt
        .issued
        .iter()
        .find(|c| matches!(c, GlCommand::TexImage { .. }))
        .unwrap();
    match alloc {
        GlCommand::TexImage { width, height, has_data, .. } => {
            assert_eq!(*width, 1);
            assert_eq!(*height, 4);
            assert!(!has_data);
        }
        _ => unreachable!(),
    }
}

#[test]
fn internal_format_query_is_cached_after_first_read() {
    let mut ctxt = context(Api::Gl, 3, 3);
    let mut tex = new_texture(
        &mut ctxt,
        TextureFormatRequest::AnyFloatingPoint,
        None,
        MipmapsOption::NoMipmap,
        4,
        Some(4),
        None,
        None,
        None,
    )
    .unwrap();
    let first = tex.get_internal_format_if_supported(&ctxt);
    assert_eq!(first, Some(InternalFormat::Rgba8));
    let second = tex.get_internal_format_if_supported(&ctxt);
    assert_eq!(second, first);
}

#[test]
fn embedded_driver_cannot_report_the_format() {
    let mut ctxt = context(Api::GlEs, 3, 0);
    let mut tex = new_texture(
        &mut ctxt,
        TextureFormatRequest::AnyFloatingPoint,
        None,
        MipmapsOption::NoMipmap,
        4,
        Some(4),
        None,
        None,
        None,
    )
    .unwrap();
    assert_eq!(tex.get_internal_format_if_supported(&ctxt), None);
}

#[test]
fn destroy_clears_bindings_and_cached_framebuffers() {
    let mut ctxt = context(Api::Gl, 3, 3);
    let tex = new_texture(
        &mut ctxt,
        TextureFormatRequest::AnyFloatingPoint,
        None,
        MipmapsOption::NoMipmap,
        4,
        Some(4),
        None,
        None,
        None,
    )
    .unwrap();
    let id = tex.get_id();
    // creation bound the texture on the active unit
    assert_eq!(ctxt.state.texture_units[0], id);
    ctxt.cache_framebuffer(id);
    tex.destroy(&mut ctxt);
    assert_eq!(ctxt.state.texture_units[0], 0);
    assert!(ctxt.fbo_cache.is_empty());
    assert!(ctxt.find_texture(id).is_none());
    let n = ctxt.issued.len();
    assert_eq!(ctxt.issued[n - 2], GlCommand::PurgeFramebuffers(id));
    assert_eq!(ctxt.issued[n - 1], GlCommand::DeleteTexture(id));
}

#[test]
fn destroy_keeps_other_resources() {
    let mut ctxt = context(Api::Gl, 3, 3);
    let first = new_texture(
        &mut ctxt,
        TextureFormatRequest::AnyFloatingPoint,
        None,
        MipmapsOption::NoMipmap,
        4,
        Some(4),
        None,
        None,
        None,
    )
    .unwrap();
    let second = new_texture(
        &mut ctxt,
        TextureFormatRequest::AnyFloatingPoint,
        None,
        MipmapsOption::NoMipmap,
        2,
        Some(2),
        None,
        None,
        None,
    )
    .unwrap();
    ctxt.cache_framebuffer(first.get_id());
    ctxt.cache_framebuffer(second.get_id());
    let second_id = second.get_id();
    let first_id = first.get_id();
    first.destroy(&mut ctxt);
    assert!(ctxt.find_texture(first_id).is_none());
    assert!(ctxt.find_texture(second_id).is_some());
    assert_eq!(ctxt.fbo_cache, vec![second_id]);
}

#[test]
fn main_level_is_the_base_view() {
    let mut ctxt = context(Api::Gl, 3, 3);
    let tex = new_texture(
        &mut ctxt,
        TextureFormatRequest::AnyFloatingPoint,
        None,
        MipmapsOption::AutoGeneratedMipmaps,
        8,
        Some(8),
        None,
        None,
        None,
    )
    .unwrap();
    let main = tex.main_level();
    assert_eq!(main.get_level(), 0);
    assert_eq!(main.get_layer(), 0);
    assert_eq!(main.width, 8);
    assert_eq!(main.height, Some(8));
}

#[test]
fn one_dimensional_texture_has_only_a_width() {
    let mut ctxt = context(Api::Gl, 3, 3);
    let tex = new_texture(
        &mut ctxt,
        TextureFormatRequest::AnyFloatingPoint,
        None,
        MipmapsOption::NoMipmap,
        16,
        None,
        None,
        None,
        None,
    )
    .unwrap();
    assert_eq!(tex.get_texture_type(), TextureType::Texture1d);
    assert_eq!(tex.get_height(), None);
    assert_eq!(tex.get_depth(), None);
    assert_eq!(tex.get_array_size(), None);
    assert_eq!(gltex::texture::get_bind_point(&tex), TextureType::Texture1d);
}

#[test]
fn multisample_array_texture() {
    let mut ctxt = context(Api::Gl, 4, 5);
    let tex = new_texture(
        &mut ctxt,
        TextureFormatRequest::AnyFloatingPoint,
        None,
        MipmapsOption::NoMipmap,
        32,
        Some(32),
        None,
        Some(6),
        Some(4),
    )
    .unwrap();
    assert_eq!(tex.get_texture_type(), TextureType::Texture2dMultisampleArray);
    assert_eq!(tex.get_array_size(), Some(6));
    let has_ms_storage = ctxt
        .issued
        .iter()
        .any(|c| matches!(c, GlCommand::TexStorageMultisample { .. }));
    assert!(has_ms_storage);
}

#[test]
fn embedded_driver_creates_and_regenerates() {
    let mut ctxt = context(Api::GlEs, 3, 0);
    let tex = new_texture(
        &mut ctxt,
        TextureFormatRequest::AnyFloatingPoint,
        Some((ClientFormatAny::ClientFormat(ClientFormat::U8U8U8U8), rgba_bytes(16))),
        MipmapsOption::AutoGeneratedMipmaps,
        4,
        Some(4),
        None,
        None,
        None,
    )
    .unwrap();
    assert_eq!(tex.get_mipmap_levels(), 3);
    assert_eq!(*ctxt.issued.last().unwrap(), GlCommand::GenerateMipmap(TextureType::Texture2d));
}

#[test]
fn empty_mipmaps_are_not_regenerated_on_creation() {
    let mut ctxt = context(Api::Gl, 3, 3);
    new_texture(
        &mut ctxt,
        TextureFormatRequest::AnyFloatingPoint,
        Some((ClientFormatAny::ClientFormat(ClientFormat::U8U8U8U8), rgba_bytes(16))),
        MipmapsOption::EmptyMipmaps,
        4,
        Some(4),
        None,
        None,
        None,
    )
    .unwrap();
    let regenerated = ctxt.issued.iter().any(|c| {
        matches!(c, GlCommand::GenerateMipmap(_)) || matches!(c, GlCommand::GenerateMipmapExt(_))
    });
    assert!(!regenerated);
}

#[test]
fn three_dimensional_textures_take_depth() {
    let mut ctxt = context(Api::Gl, 3, 3);
    let tex = new_texture(
        &mut ctxt,
        TextureFormatRequest::AnyFloatingPoint,
        None,
        MipmapsOption::NoMipmap,
        4,
        Some(4),
        Some(4),
        None,
        None,
    )
    .unwrap();
    assert_eq!(tex.get_texture_type(), TextureType::Texture3d);
    assert_eq!(tex.get_depth(), Some(4));
    assert_eq!(tex.get_array_size(), None);
}
