//! The declarative table behind the per-combination wrapper layer: one
//! descriptor per (format kind x dimensionality) combination, stating the
//! wrapper type's name, its defaults, and which constructors and
//! accessors the combination carries. A generic wrapper layer renders
//! these descriptors instead of maintaining one hand-written type per
//! combination.

use vstd::prelude::*;

use crate::format::{MipmapsOption, TextureFormatRequest};

verus! {

/// The logical format kind of a wrapper type.
#[derive(Copy, Clone, PartialEq, Eq, Structural, Debug)]
pub enum TextureType {
    Regular,
    Compressed,
    Srgb,
    CompressedSrgb,
    Integral,
    Unsigned,
    Depth,
    Stencil,
    DepthStencil,
}

/// The dimensionality of a wrapper type.
#[derive(Copy, Clone, PartialEq, Eq, Structural, Debug)]
pub enum TextureDimensions {
    Texture1d,
    Texture2d,
    Texture2dMultisample,
    Texture3d,
    Texture1dArray,
    Texture2dArray,
    Texture2dMultisampleArray,
}

impl TextureDimensions {
    /// Whether this dimensionality is an array of textures.
    pub open spec fn spec_is_array(self) -> bool {
        self == TextureDimensions::Texture1dArray || self == TextureDimensions::Texture2dArray
    }

    /// Whether this dimensionality is an array of textures.
    pub fn is_array(&self) -> (r: bool)
        ensures
            r == self.spec_is_array(),
    {
        match self {
            TextureDimensions::Texture1dArray => true,
            TextureDimensions::Texture2dArray => true,
            _ => false,
        }
    }

    /// Whether this dimensionality is multisampled.
    pub open spec fn spec_is_multisample(self) -> bool {
        self == TextureDimensions::Texture2dMultisample || self
            == TextureDimensions::Texture2dMultisampleArray
    }

    /// Whether this dimensionality is multisampled.
    pub fn is_multisample(&self) -> (r: bool)
        ensures
            r == self.spec_is_multisample(),
    {
        match self {
            TextureDimensions::Texture2dMultisample => true,
            TextureDimensions::Texture2dMultisampleArray => true,
            _ => false,
        }
    }
}

/// Which variant of the client-payload encoding a wrapper's compressed
/// data constructors use.
#[derive(Copy, Clone, PartialEq, Eq, Structural, Debug)]
pub enum ClientFormatVariant {
    ClientFormat,
    CompressedFormat,
    CompressedSrgbFormat,
}

/// A framebuffer attachment role a wrapper type can take.
#[derive(Copy, Clone, PartialEq, Eq, Structural, Debug)]
pub enum AttachmentKind {
    Color,
    Depth,
    Stencil,
    DepthStencil,
}

/// One shape parameter of a wrapper's constructors.
#[derive(Copy, Clone, PartialEq, Eq, Structural, Debug)]
pub enum DimensionParameter {
    Width,
    Height,
    Depth,
    ArraySize,
    Samples,
}

/// The descriptor of one (format kind x dimensionality) wrapper type:
/// its name, defaults and capabilities.
#[derive(Debug)]
pub struct TextureModule {
    pub kind: TextureType,
    pub dimensions: TextureDimensions,
    /// Wrapper type name: the kind's prefix followed by the
    /// dimensionality's suffix.
    pub name: String,
    /// Name of the data-source trait its constructors take; absent for
    /// multisample wrappers, which take no data.
    pub data_source_trait: Option<String>,
    /// Name of the concrete-format enumeration of the kind.
    pub relevant_format: String,
    /// The wildcard request used when no format is specified.
    pub default_format: TextureFormatRequest,
    /// The mipmap policy used when none is specified: compressed
    /// wrappers allocate no extra levels, the rest regenerate
    /// automatically.
    pub default_mipmaps: MipmapsOption,
    pub is_compressed: bool,
    /// The client-payload variant its compressed-data constructors use.
    pub client_format_variant: ClientFormatVariant,
    /// Build-feature gate of the kind, if any.
    pub format_feature: Option<String>,
    /// Build-feature gate of the dimensionality, if any.
    pub dimension_feature: Option<String>,
    /// The shape parameters of its constructors, in order.
    pub dimension_parameters: Vec<DimensionParameter>,
    pub has_new: bool,
    pub has_if_supported: bool,
    pub has_with_compressed_data: bool,
    pub has_empty: bool,
    pub has_as_surface: bool,
    pub has_read_write: bool,
    pub has_write_compressed_data: bool,
    pub has_read_compressed_data: bool,
    pub has_layer: bool,
    pub has_mipmap: bool,
    pub has_uniform_value: bool,
    pub attachment: Option<AttachmentKind>,
}

/// The name prefix of a format kind.
pub open spec fn spec_kind_prefix(kind: TextureType) -> Seq<char> {
    match kind {
        TextureType::Regular => ""@,
        TextureType::Compressed => "Compressed"@,
        TextureType::Srgb => "Srgb"@,
        TextureType::CompressedSrgb => "CompressedSrgb"@,
        TextureType::Integral => "Integral"@,
        TextureType::Unsigned => "Unsigned"@,
        TextureType::Depth => "Depth"@,
        TextureType::Stencil => "Stencil"@,
        TextureType::DepthStencil => "DepthStencil"@,
    }
}

/// The name suffix of a dimensionality.
pub open spec fn spec_dim_suffix(dimensions: TextureDimensions) -> Seq<char> {
    match dimensions {
        TextureDimensions::Texture1d => "Texture1d"@,
        TextureDimensions::Texture2d => "Texture2d"@,
        TextureDimensions::Texture2dMultisample => "Texture2dMultisample"@,
        TextureDimensions::Texture3d => "Texture3d"@,
        TextureDimensions::Texture1dArray => "Texture1dArray"@,
        TextureDimensions::Texture2dArray => "Texture2dArray"@,
        TextureDimensions::Texture2dMultisampleArray => "Texture2dMultisampleArray"@,
    }
}

/// The data-source trait of a dimensionality; multisample wrappers take
/// none.
pub open spec fn spec_data_source_trait(dimensions: TextureDimensions) -> Option<Seq<char>> {
    match dimensions {
        TextureDimensions::Texture1d => Some("Texture1dDataSource"@),
        TextureDimensions::Texture1dArray => Some("Texture1dDataSource"@),
        TextureDimensions::Texture2d => Some("Texture2dDataSource"@),
        TextureDimensions::Texture2dArray => Some("Texture2dDataSource"@),
        TextureDimensions::Texture3d => Some("Texture3dDataSource"@),
        TextureDimensions::Texture2dMultisample => None,
        TextureDimensions::Texture2dMultisampleArray => None,
    }
}

/// The concrete-format enumeration of a kind.
pub open spec fn spec_relevant_format(kind: TextureType) -> Seq<char> {
    match kind {
        TextureType::Regular => "UncompressedFloatFormat"@,
        TextureType::Compressed => "CompressedFormat"@,
        TextureType::Srgb => "SrgbFormat"@,
        TextureType::CompressedSrgb => "CompressedSrgbFormat"@,
        TextureType::Integral => "UncompressedIntFormat"@,
        TextureType::Unsigned => "UncompressedUintFormat"@,
        TextureType::Depth => "DepthFormat"@,
        TextureType::Stencil => "StencilFormat"@,
        TextureType::DepthStencil => "DepthStencilFormat"@,
    }
}

/// The wildcard request a kind defaults to.
pub open spec fn spec_default_format(kind: TextureType) -> TextureFormatRequest {
    match kind {
        TextureType::Regular => TextureFormatRequest::AnyFloatingPoint,
        TextureType::Compressed => TextureFormatRequest::AnyCompressed,
        TextureType::Srgb => TextureFormatRequest::AnySrgb,
        TextureType::CompressedSrgb => TextureFormatRequest::AnyCompressedSrgb,
        TextureType::Integral => TextureFormatRequest::AnyIntegral,
        TextureType::Unsigned => TextureFormatRequest::AnyUnsigned,
        TextureType::Depth => TextureFormatRequest::AnyDepth,
        TextureType::Stencil => TextureFormatRequest::AnyStencil,
        TextureType::DepthStencil => TextureFormatRequest::AnyDepthStencil,
    }
}

/// Whether a kind stores compressed data.
pub open spec fn spec_is_compressed_kind(kind: TextureType) -> bool {
    kind == TextureType::Compressed || kind == TextureType::CompressedSrgb
}

/// The client-payload variant of a kind.
pub open spec fn spec_client_format_variant(kind: TextureType) -> ClientFormatVariant {
    match kind {
        TextureType::Compressed => ClientFormatVariant::CompressedFormat,
        TextureType::CompressedSrgb => ClientFormatVariant::CompressedSrgbFormat,
        _ => ClientFormatVariant::ClientFormat,
    }
}

/// The build-feature gate of a kind, if any.
pub open spec fn spec_format_feature(kind: TextureType) -> Option<Seq<char>> {
    match kind {
        TextureType::Integral => Some("gl_integral_textures"@),
        TextureType::Unsigned => Some("gl_integral_textures"@),
        TextureType::Depth => Some("gl_depth_textures"@),
        TextureType::DepthStencil => Some("gl_depth_textures"@),
        TextureType::Stencil => Some("gl_stencil_textures"@),
        _ => None,
    }
}

/// The build-feature gate of a dimensionality, if any.
pub open spec fn spec_dimension_feature(dimensions: TextureDimensions) -> Option<Seq<char>> {
    match dimensions {
        TextureDimensions::Texture1d => Some("gl_texture_1d"@),
        TextureDimensions::Texture2dArray => Some("gl_texture_3d"@),
        TextureDimensions::Texture3d => Some("gl_texture_3d"@),
        TextureDimensions::Texture2dMultisample => Some("gl_texture_multisample"@),
        TextureDimensions::Texture2dMultisampleArray => Some("gl_texture_multisample_array"@),
        _ => None,
    }
}

/// The shape parameters of a dimensionality, in order.
pub open spec fn spec_dimension_parameters(dimensions: TextureDimensions) -> Seq<
    DimensionParameter,
> {
    match dimensions {
        TextureDimensions::Texture1d => seq![DimensionParameter::Width],
        TextureDimensions::Texture2d => seq![DimensionParameter::Width, DimensionParameter::Height],
        TextureDimensions::Texture2dMultisample => seq![
            DimensionParameter::Width,
            DimensionParameter::Height,
            DimensionParameter::Samples,
        ],
        TextureDimensions::Texture3d => seq![
            DimensionParameter::Width,
            DimensionParameter::Height,
            DimensionParameter::Depth,
        ],
        TextureDimensions::Texture1dArray => seq![
            DimensionParameter::Width,
            DimensionParameter::ArraySize,
        ],
        TextureDimensions::Texture2dArray => seq![
            DimensionParameter::Width,
            DimensionParameter::Height,
            DimensionParameter::ArraySize,
        ],
        TextureDimensions::Texture2dMultisampleArray => seq![
            DimensionParameter::Width,
            DimensionParameter::Height,
            DimensionParameter::ArraySize,
            DimensionParameter::Samples,
        ],
    }
}

/// The attachment role of a combination, if it can be attached to a
/// framebuffer.
pub open spec fn spec_attachment(
    kind: TextureType,
    dimensions: TextureDimensions,
) -> Option<AttachmentKind> {
    if dimensions == TextureDimensions::Texture2d || dimensions
        == TextureDimensions::Texture2dMultisample {
        match kind {
            TextureType::Regular => Some(AttachmentKind::Color),
            TextureType::Srgb => Some(AttachmentKind::Color),
            TextureType::Depth => Some(AttachmentKind::Depth),
            TextureType::Stencil => Some(AttachmentKind::Stencil),
            TextureType::DepthStencil => Some(AttachmentKind::DepthStencil),
            _ => None,
        }
    } else {
        None
    }
}

/// Whether a combination carries a sampler-uniform implementation.
pub open spec fn spec_has_uniform_value(kind: TextureType) -> bool {
    kind != TextureType::Stencil && kind != TextureType::DepthStencil
}

/// Every field of a descriptor matches its (kind x dimensionality)
/// combination.
pub open spec fn module_ok(m: TextureModule) -> bool {
    let kind = m.kind;
    let dims = m.dimensions;
    let ms = dims.spec_is_multisample();
    let array = dims.spec_is_array();
    let compressed = spec_is_compressed_kind(kind);
    let gated = spec_format_feature(kind) is Some || spec_dimension_feature(dims) is Some;
    &&& m.name@ == spec_kind_prefix(kind) + spec_dim_suffix(dims)
    &&& (match (m.data_source_trait, spec_data_source_trait(dims)) {
        (Some(s), Some(expected)) => s@ == expected,
        (None, None) => true,
        _ => false,
    })
    &&& m.relevant_format@ == spec_relevant_format(kind)
    &&& m.default_format == spec_default_format(kind)
    &&& m.default_mipmaps == (if compressed {
        MipmapsOption::NoMipmap
    } else {
        MipmapsOption::AutoGeneratedMipmaps
    })
    &&& m.is_compressed == compressed
    &&& m.client_format_variant == spec_client_format_variant(kind)
    &&& (match (m.format_feature, spec_format_feature(kind)) {
        (Some(s), Some(expected)) => s@ == expected,
        (None, None) => true,
        _ => false,
    })
    &&& (match (m.dimension_feature, spec_dimension_feature(dims)) {
        (Some(s), Some(expected)) => s@ == expected,
        (None, None) => true,
        _ => false,
    })
    &&& m.dimension_parameters@ == spec_dimension_parameters(dims)
    &&& m.has_new == !ms
    &&& m.has_if_supported == (gated && !ms)
    &&& m.has_with_compressed_data == (compressed && !ms)
    &&& m.has_empty == !compressed
    &&& m.has_as_surface == ((dims == TextureDimensions::Texture2d || dims
        == TextureDimensions::Texture2dMultisample) && kind == TextureType::Regular)
    &&& m.has_read_write == (dims == TextureDimensions::Texture2d && (kind
        == TextureType::Regular || compressed))
    &&& m.has_write_compressed_data == (dims == TextureDimensions::Texture2d && compressed)
    &&& m.has_read_compressed_data == (compressed && !array)
    &&& m.has_layer == array
    &&& m.has_mipmap == !array
    &&& m.has_uniform_value == spec_has_uniform_value(kind)
    &&& m.attachment == spec_attachment(kind, dims)
}

/// Builds the descriptor of one (format kind x dimensionality)
/// combination.
pub fn build_texture(ty: TextureType, dimensions: TextureDimensions) -> (r: TextureModule)
    ensures
        r.kind == ty,
        r.dimensions == dimensions,
        module_ok(r),
{
    let prefix: &str = match ty {
        TextureType::Regular => "",
        TextureType::Compressed => "Compressed",
        TextureType::Srgb => "Srgb",
        TextureType::CompressedSrgb => "CompressedSrgb",
        TextureType::Integral => "Integral",
        TextureType::Unsigned => "Unsigned",
        TextureType::Depth => "Depth",
        TextureType::Stencil => "Stencil",
        TextureType::DepthStencil => "DepthStencil",
    };
    let suffix: &str = match dimensions {
        TextureDimensions::Texture1d => "Texture1d",
        TextureDimensions::Texture2d => "Texture2d",
        TextureDimensions::Texture2dMultisample => "Texture2dMultisample",
        TextureDimensions::Texture3d => "Texture3d",
        TextureDimensions::Texture1dArray => "Texture1dArray",
        TextureDimensions::Texture2dArray => "Texture2dArray",
        TextureDimensions::Texture2dMultisampleArray => "Texture2dMultisampleArray",
    };
    let mut name: String = String::new();
    name.append(prefix);
    name.append(suffix);

    let data_source_trait: Option<String> = match dimensions {
        TextureDimensions::Texture1d => Some(String::from_str("Texture1dDataSource")),
        TextureDimensions::Texture1dArray => Some(String::from_str("Texture1dDataSource")),
        TextureDimensions::Texture2d => Some(String::from_str("Texture2dDataSource")),
        TextureDimensions::Texture2dArray => Some(String::from_str("Texture2dDataSource")),
        TextureDimensions::Texture3d => Some(String::from_str("Texture3dDataSource")),
        TextureDimensions::Texture2dMultisample => None,
        TextureDimensions::Texture2dMultisampleArray => None,
    };

    let relevant_format: String = match ty {
        TextureType::Regular => String::from_str("UncompressedFloatFormat"),
        TextureType::Compressed => String::from_str("CompressedFormat"),
        TextureType::Srgb => String::from_str("SrgbFormat"),
        TextureType::CompressedSrgb => String::from_str("CompressedSrgbFormat"),
        TextureType::Integral => String::from_str("UncompressedIntFormat"),
        TextureType::Unsigned => String::from_str("UncompressedUintFormat"),
        TextureType::Depth => String::from_str("DepthFormat"),
        TextureType::Stencil => String::from_str("StencilFormat"),
        TextureType::DepthStencil => String::from_str("DepthStencilFormat"),
    };

    let default_format: TextureFormatRequest = match ty {
        TextureType::Regular => TextureFormatRequest::AnyFloatingPoint,
        TextureType::Compressed => TextureFormatRequest::AnyCompressed,
        TextureType::Srgb => TextureFormatRequest::AnySrgb,
        TextureType::CompressedSrgb => TextureFormatRequest::AnyCompressedSrgb,
        TextureType::Integral => TextureFormatRequest::AnyIntegral,
        TextureType::Unsigned => TextureFormatRequest::AnyUnsigned,
        TextureType::Depth => TextureFormatRequest::AnyDepth,
        TextureType::Stencil => TextureFormatRequest::AnyStencil,
        TextureType::DepthStencil => TextureFormatRequest::AnyDepthStencil,
    };

    let is_compressed: bool = matches!(ty, TextureType::Compressed) || matches!(
        ty,
        TextureType::CompressedSrgb,
    );
    let default_mipmaps: MipmapsOption = if is_compressed {
        MipmapsOption::NoMipmap
    } else {
        MipmapsOption::AutoGeneratedMipmaps
    };
    let client_format_variant: ClientFormatVariant = match ty {
        TextureType::Compressed => ClientFormatVariant::CompressedFormat,
        TextureType::CompressedSrgb => ClientFormatVariant::CompressedSrgbFormat,
        _ => ClientFormatVariant::ClientFormat,
    };

    let format_feature: Option<String> = match ty {
        TextureType::Integral => Some(String::from_str("gl_integral_textures")),
        TextureType::Unsigned => Some(String::from_str("gl_integral_textures")),
        TextureType::Depth => Some(String::from_str("gl_depth_textures")),
        TextureType::DepthStencil => Some(String::from_str("gl_depth_textures")),
        TextureType::Stencil => Some(String::from_str("gl_stencil_textures")),
        _ => None,
    };
    let dimension_feature: Option<String> = match dimensions {
        TextureDimensions::Texture1d => Some(String::from_str("gl_texture_1d")),
        TextureDimensions::Texture2dArray => Some(String::from_str("gl_texture_3d")),
        TextureDimensions::Texture3d => Some(String::from_str("gl_texture_3d")),
        TextureDimensions::Texture2dMultisample => Some(String::from_str("gl_texture_multisample")),
        TextureDimensions::Texture2dMultisampleArray => Some(
            String::from_str("gl_texture_multisample_array"),
        ),
        _ => None,
    };
    let gated: bool = format_feature.is_some() || dimension_feature.is_some();

    let mut dimension_parameters: Vec<DimensionParameter> = Vec::new();
    dimension_parameters.push(DimensionParameter::Width);
    match dimensions {
        TextureDimensions::Texture1d => {},
        TextureDimensions::Texture2d => {
            dimension_parameters.push(DimensionParameter::Height);
        },
        TextureDimensions::Texture2dMultisample => {
            dimension_parameters.push(DimensionParameter::Height);
            dimension_parameters.push(DimensionParameter::Samples);
        },
        TextureDimensions::Texture3d => {
            dimension_parameters.push(DimensionParameter::Height);
            dimension_parameters.push(DimensionParameter::Depth);
        },
        TextureDimensions::Texture1dArray => {
            dimension_parameters.push(DimensionParameter::ArraySize);
        },
        TextureDimensions::Texture2dArray => {
            dimension_parameters.push(DimensionParameter::Height);
            dimension_parameters.push(DimensionParameter::ArraySize);
        },
        TextureDimensions::Texture2dMultisampleArray => {
            dimension_parameters.push(DimensionParameter::Height);
            dimension_parameters.push(DimensionParameter::ArraySize);
            dimension_parameters.push(DimensionParameter::Samples);
        },
    }
    proof {
        assert(dimension_parameters@ =~= spec_dimension_parameters(dimensions));
    }

    let ms: bool = dimensions.is_multisample();
    let array: bool = dimensions.is_array();
    let two_d: bool = matches!(dimensions, TextureDimensions::Texture2d);
    let two_d_or_ms: bool = two_d || matches!(dimensions, TextureDimensions::Texture2dMultisample);

    let attachment: Option<AttachmentKind> = if two_d_or_ms {
        match ty {
            TextureType::Regular => Some(AttachmentKind::Color),
            TextureType::Srgb => Some(AttachmentKind::Color),
            TextureType::Depth => Some(AttachmentKind::Depth),
            TextureType::Stencil => Some(AttachmentKind::Stencil),
            TextureType::DepthStencil => Some(AttachmentKind::DepthStencil),
            _ => None,
        }
    } else {
        None
    };

    TextureModule {
        kind: ty,
        dimensions,
        name,
        data_source_trait,
        relevant_format,
        default_format,
        default_mipmaps,
        is_compressed,
        client_format_variant,
        format_feature,
        dimension_feature,
        dimension_parameters,
        has_new: !ms,
        has_if_supported: gated && !ms,
        has_with_compressed_data: is_compressed && !ms,
        has_empty: !is_compressed,
        has_as_surface: two_d_or_ms && matches!(ty, TextureType::Regular),
        has_read_write: two_d && (matches!(ty, TextureType::Regular) || is_compressed),
        has_write_compressed_data: two_d && is_compressed,
        has_read_compressed_data: is_compressed && !array,
        has_layer: array,
        has_mipmap: !array,
        has_uniform_value: !matches!(ty, TextureType::Stencil) && !matches!(
            ty,
            TextureType::DepthStencil,
        ),
        attachment,
    }
}

/// The combinations of the wrapper layer, in the order they are built:
/// every kind over the plain and array dimensionalities, and the
/// non-compressed kinds over the multisample ones.
pub open spec fn spec_combinations() -> Seq<(TextureType, TextureDimensions)> {
    spec_full_kinds(TextureDimensions::Texture1d) + spec_full_kinds(TextureDimensions::Texture2d)
        + spec_multisample_kinds(TextureDimensions::Texture2dMultisample) + spec_full_kinds(
        TextureDimensions::Texture3d,
    ) + spec_full_kinds(TextureDimensions::Texture1dArray) + spec_full_kinds(
        TextureDimensions::Texture2dArray,
    ) + spec_multisample_array_kinds(TextureDimensions::Texture2dMultisampleArray)
}

/// All nine kinds over one dimensionality.
pub open spec fn spec_full_kinds(dims: TextureDimensions) -> Seq<(TextureType, TextureDimensions)> {
    seq![
        (TextureType::Regular, dims),
        (TextureType::Compressed, dims),
        (TextureType::Srgb, dims),
        (TextureType::CompressedSrgb, dims),
        (TextureType::Integral, dims),
        (TextureType::Unsigned, dims),
        (TextureType::Depth, dims),
        (TextureType::Stencil, dims),
        (TextureType::DepthStencil, dims),
    ]
}

/// The kinds built for the multisample dimensionality, in order.
pub open spec fn spec_multisample_kinds(dims: TextureDimensions) -> Seq<
    (TextureType, TextureDimensions),
> {
    seq![
        (TextureType::Regular, dims),
        (TextureType::Integral, dims),
        (TextureType::Srgb, dims),
        (TextureType::Unsigned, dims),
        (TextureType::Depth, dims),
        (TextureType::Stencil, dims),
        (TextureType::DepthStencil, dims),
    ]
}

/// The kinds built for the multisample-array dimensionality, in order.
pub open spec fn spec_multisample_array_kinds(dims: TextureDimensions) -> Seq<
    (TextureType, TextureDimensions),
> {
    seq![
        (TextureType::Regular, dims),
        (TextureType::Srgb, dims),
        (TextureType::Integral, dims),
        (TextureType::Unsigned, dims),
        (TextureType::Depth, dims),
        (TextureType::Stencil, dims),
        (TextureType::DepthStencil, dims),
    ]
}

/// Builds the whole descriptor table: one well-formed descriptor per
/// combination, in the fixed order of `spec_combinations`.
pub fn build_texture_file() -> (r: Vec<TextureModule>)
    ensures
        r@.len() == spec_combinations().len(),
        forall|i: int|
            0 <= i < r@.len() ==> {
                &&& (#[trigger] r@[i]).kind == spec_combinations()[i].0
                &&& r@[i].dimensions == spec_combinations()[i].1
                &&& module_ok(r@[i])
            },
{
    let mut out: Vec<TextureModule> = Vec::new();
    push_full_kinds(&mut out, TextureDimensions::Texture1d);
    push_full_kinds(&mut out, TextureDimensions::Texture2d);
    out.push(build_texture(TextureType::Regular, TextureDimensions::Texture2dMultisample));
    out.push(build_texture(TextureType::Integral, TextureDimensions::Texture2dMultisample));
    out.push(build_texture(TextureType::Srgb, TextureDimensions::Texture2dMultisample));
    out.push(build_texture(TextureType::Unsigned, TextureDimensions::Texture2dMultisample));
    out.push(build_texture(TextureType::Depth, TextureDimensions::Texture2dMultisample));
    out.push(build_texture(TextureType::Stencil, TextureDimensions::Texture2dMultisample));
    out.push(build_texture(TextureType::DepthStencil, TextureDimensions::Texture2dMultisample));
    push_full_kinds(&mut out, TextureDimensions::Texture3d);
    push_full_kinds(&mut out, TextureDimensions::Texture1dArray);
    push_full_kinds(&mut out, TextureDimensions::Texture2dArray);
    out.push(build_texture(TextureType::Regular, TextureDimensions::Texture2dMultisampleArray));
    out.push(build_texture(TextureType::Srgb, TextureDimensions::Texture2dMultisampleArray));
    out.push(build_texture(TextureType::Integral, TextureDimensions::Texture2dMultisampleArray));
    out.push(build_texture(TextureType::Unsigned, TextureDimensions::Texture2dMultisampleArray));
    out.push(build_texture(TextureType::Depth, TextureDimensions::Texture2dMultisampleArray));
    out.push(build_texture(TextureType::Stencil, TextureDimensions::Texture2dMultisampleArray));
    out.push(
        build_texture(TextureType::DepthStencil, TextureDimensions::Texture2dMultisampleArray),
    );
    proof {
        assert forall|i: int| 0 <= i < out@.len() implies {
            &&& (#[trigger] out@[i]).kind == spec_combinations()[i].0
            &&& out@[i].dimensions == spec_combinations()[i].1
            &&& module_ok(out@[i])
        } by {
            let c = spec_combinations();
            let d1 = spec_full_kinds(TextureDimensions::Texture1d);
            let d2 = spec_full_kinds(TextureDimensions::Texture2d);
            let dms = spec_multisample_kinds(TextureDimensions::Texture2dMultisample);
            let d3 = spec_full_kinds(TextureDimensions::Texture3d);
            let d1a = spec_full_kinds(TextureDimensions::Texture1dArray);
            let d2a = spec_full_kinds(TextureDimensions::Texture2dArray);
            let dmsa = spec_multisample_array_kinds(
                TextureDimensions::Texture2dMultisampleArray,
            );
            assert(d1.len() == 9 && d2.len() == 9 && dms.len() == 7 && d3.len() == 9 && d1a.len()
                == 9 && d2a.len() == 9 && dmsa.len() == 7);
            assert(c == d1 + d2 + dms + d3 + d1a + d2a + dmsa);
            assert(c.len() == ((((((d1 + d2) + dms) + d3) + d1a) + d2a) + dmsa).len());
            assert(c.len() == 59);
            if i < 9 {
                assert(c[i] == d1[i]);
            } else if i < 18 {
                assert(c[i] == d2[i - 9]);
            } else if i < 25 {
                assert(c[i] == dms[i - 18]);
            } else if i < 34 {
                assert(c[i] == d3[i - 25]);
            } else if i < 43 {
                assert(c[i] == d1a[i - 34]);
            } else if i < 52 {
                assert(c[i] == d2a[i - 43]);
            } else {
                assert(c[i] == dmsa[i - 52]);
            }
        }
    }
    out
}

/// Appends the descriptors of all nine kinds over one dimensionality.
fn push_full_kinds(out: &mut Vec<TextureModule>, dims: TextureDimensions)
    ensures
        final(out)@.len() == old(out)@.len() + 9,
        forall|i: int| 0 <= i < old(out)@.len() ==> final(out)@[i] == old(out)@[i],
        forall|i: int|
            old(out)@.len() <= i < final(out)@.len() ==> {
                &&& (#[trigger] final(out)@[i]).kind == spec_full_kinds(dims)[i - old(out)@.len()].0
                &&& final(out)@[i].dimensions == dims
                &&& module_ok(final(out)@[i])
            },
{
    out.push(build_texture(TextureType::Regular, dims));
    out.push(build_texture(TextureType::Compressed, dims));
    out.push(build_texture(TextureType::Srgb, dims));
    out.push(build_texture(TextureType::CompressedSrgb, dims));
    out.push(build_texture(TextureType::Integral, dims));
    out.push(build_texture(TextureType::Unsigned, dims));
    out.push(build_texture(TextureType::Depth, dims));
    out.push(build_texture(TextureType::Stencil, dims));
    out.push(build_texture(TextureType::DepthStencil, dims));
}

} // verus!
