//! The wrapper-layer descriptor table.

use gltex::format::{MipmapsOption, TextureFormatRequest};
use gltex::generate::{
    build_texture, build_texture_file, AttachmentKind, ClientFormatVariant, DimensionParameter,
    TextureDimensions, TextureType,
};

#[test]
fn dimensionality_predicates() {
    assert!(TextureDimensions::Texture1dArray.is_array());
    assert!(TextureDimensions::Texture2dArray.is_array());
    assert!(!TextureDimensions::Texture2dMultisampleArray.is_array());
    assert!(!TextureDimensions::Texture2d.is_array());
    assert!(TextureDimensions::Texture2dMultisample.is_multisample());
    assert!(TextureDimensions::Texture2dMultisampleArray.is_multisample());
    assert!(!TextureDimensions::Texture3d.is_multisample());
}

#[test]
fn the_table_covers_every_combination() {
    let table = build_texture_file();
    assert_eq!(table.len(), 59);
    // nine kinds for each plain or array dimensionality, seven for the
    // multisample ones
    let ms = table
        .iter()
        .filter(|m| {
            m.dimensions == TextureDimensions::Texture2dMultisample
                || m.dimensions == TextureDimensions::Texture2dMultisampleArray
        })
        .count();
    assert_eq!(ms, 14);
    // the first entry is the plain one-dimensional texture
    assert_eq!(table[0].kind, TextureType::Regular);
    assert_eq!(table[0].dimensions, TextureDimensions::Texture1d);
    assert_eq!(table[0].name, "Texture1d");
}

#[test]
fn compressed_srgb_array_descriptor() {
    let m = build_texture(TextureType::CompressedSrgb, TextureDimensions::Texture2dArray);
    assert_eq!(m.name, "CompressedSrgbTexture2dArray");
    assert_eq!(m.relevant_format, "CompressedSrgbFormat");
    assert_eq!(m.default_format, TextureFormatRequest::AnyCompressedSrgb);
    assert_eq!(m.default_mipmaps, MipmapsOption::NoMipmap);
    assert!(m.is_compressed);
    assert_eq!(m.client_format_variant, ClientFormatVariant::CompressedSrgbFormat);
    assert_eq!(m.data_source_trait.as_deref(), Some("Texture2dDataSource"));
    assert_eq!(m.dimension_feature.as_deref(), Some("gl_texture_3d"));
    assert_eq!(m.format_feature, None);
    assert_eq!(
        m.dimension_parameters,
        vec![DimensionParameter::Width, DimensionParameter::Height, DimensionParameter::ArraySize]
    );
    assert!(m.has_layer);
    assert!(!m.has_mipmap);
    assert!(m.has_with_compressed_data);
    assert!(!m.has_empty);
    // compressed readback exists only off the array dimensionalities
    assert!(!m.has_read_compressed_data);
    assert_eq!(m.attachment, None);
}

#[test]
fn multisample_descriptor_takes_no_data() {
    let m = build_texture(TextureType::Regular, TextureDimensions::Texture2dMultisample);
    assert_eq!(m.name, "Texture2dMultisample");
    assert_eq!(m.data_source_trait, None);
    assert!(!m.has_new);
    assert!(!m.has_if_supported);
    assert!(m.has_empty);
    assert!(m.has_as_surface);
    assert_eq!(m.attachment, Some(AttachmentKind::Color));
    assert_eq!(
        m.dimension_parameters,
        vec![DimensionParameter::Width, DimensionParameter::Height, DimensionParameter::Samples]
    );
}

#[test]
fn depth_two_d_descriptor() {
    let m = build_texture(TextureType::Depth, TextureDimensions::Texture2d);
    assert_eq!(m.name, "DepthTexture2d");
    assert_eq!(m.format_feature.as_deref(), Some("gl_depth_textures"));
    assert_eq!(m.dimension_feature, None);
    assert_eq!(m.attachment, Some(AttachmentKind::Depth));
    assert!(m.has_uniform_value);
    // reads and writes exist only for plain and compressed colour
    assert!(!m.has_read_write);
    assert_eq!(m.default_mipmaps, MipmapsOption::AutoGeneratedMipmaps);
}

#[test]
fn stencil_kinds_carry_no_sampler_uniform() {
    let s = build_texture(TextureType::Stencil, TextureDimensions::Texture2d);
    assert!(!s.has_uniform_value);
    assert_eq!(s.attachment, Some(AttachmentKind::Stencil));
    let ds = build_texture(TextureType::DepthStencil, TextureDimensions::Texture2d);
    assert!(!ds.has_uniform_value);
    assert_eq!(ds.attachment, Some(AttachmentKind::DepthStencil));
}

#[test]
fn compressed_two_d_descriptor_reads_and_writes() {
    let m = build_texture(TextureType::Compressed, TextureDimensions::Texture2d);
    assert_eq!(m.name, "CompressedTexture2d");
    assert!(m.has_read_write);
    assert!(m.has_write_compressed_data);
    assert!(m.has_read_compressed_data);
    assert!(m.has_mipmap);
    assert!(!m.has_layer);
    assert_eq!(m.client_format_variant, ClientFormatVariant::CompressedFormat);
}
