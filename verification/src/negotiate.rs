//! The format negotiator: a pure decision from a logical format request,
//! the optional client-supplied payload encoding, and the capability
//! snapshot, to the concrete storage and transfer formats to use.

use vstd::prelude::*;

use crate::context::CapabilitySnapshot;
use crate::error::TextureCreationError;
use crate::format::{
    ClientFormat, ClientFormatAny, CompressedFormat, CompressedSrgbFormat, DepthFormat,
    DepthStencilFormat, InternalFormat, SrgbFormat, StencilFormat, TextureFormat,
    TextureFormatRequest, TransferFormat, TransferParams, TransferType, UncompressedFloatFormat,
    UncompressedIntFormat, UncompressedUintFormat,
};
use crate::version::Api;

verus! {

/// The outcome of format negotiation.
#[derive(Copy, Clone, PartialEq, Eq, Debug)]
pub struct NegotiatedFormat {
    /// Format used for one-step (non-preallocated) allocation.
    pub teximg_format: InternalFormat,
    /// Present exactly when the driver supports preallocated immutable
    /// storage and the chosen format has a fixed layout; creation then
    /// uses the two-step allocate-then-upload path.
    pub storage_format: Option<InternalFormat>,
    /// Transfer encoding of caller-supplied pixel data; `None` exactly
    /// when the client payload is compressed and is copied verbatim.
    pub transfer: Option<TransferParams>,
}

impl CapabilitySnapshot {
    /// sRGB formats are available.
    pub open spec fn spec_srgb_supported(self) -> bool {
        self.version.spec_at_least(Api::Gl, 2, 1) || self.extensions.gl_ext_texture_srgb
    }

    /// Standard block-compressed formats are available.
    pub open spec fn spec_s3tc_supported(self) -> bool {
        self.extensions.gl_ext_texture_compression_s3tc
    }

    /// Generic (driver-chosen) compression is available.
    pub open spec fn spec_generic_compression_supported(self) -> bool {
        self.version.spec_at_least(Api::Gl, 1, 3)
    }

    /// Integral colour formats are available.
    pub open spec fn spec_integer_supported(self) -> bool {
        self.version.spec_at_least(Api::Gl, 3, 0) || self.extensions.gl_ext_texture_integer
    }

    /// Depth textures are available.
    pub open spec fn spec_depth_supported(self) -> bool {
        self.version.spec_at_least(Api::Gl, 1, 4) || self.extensions.gl_arb_depth_texture
    }

    /// Stencil textures are available.
    pub open spec fn spec_stencil_supported(self) -> bool {
        self.version.spec_at_least(Api::Gl, 4, 4) || self.extensions.gl_arb_texture_stencil8
    }

    /// Combined depth + stencil textures are available.
    pub open spec fn spec_depth_stencil_supported(self) -> bool {
        self.version.spec_at_least(Api::Gl, 3, 0) || self.extensions.gl_ext_packed_depth_stencil
    }

    /// 32-bit floating-point colour storage is available.
    pub open spec fn spec_float_storage_supported(self) -> bool {
        self.version.spec_at_least(Api::Gl, 3, 0) || self.extensions.gl_arb_texture_float
    }

    /// Sized colour formats are available (otherwise the driver picks the
    /// storage width of plain colour textures).
    pub open spec fn spec_sized_color_supported(self) -> bool {
        self.version.spec_at_least(Api::Gl, 3, 0) || self.version.spec_at_least(Api::GlEs, 3, 0)
    }
}

/// The internal format a wildcard request resolves to: the best concrete
/// format the snapshot supports for the category, `None` when the
/// category is unsupported. Specific requests are handled by
/// [`spec_specific_format`].
pub open spec fn spec_wildcard_format(
    caps: CapabilitySnapshot,
    request: TextureFormatRequest,
) -> Option<InternalFormat> {
    match request {
        TextureFormatRequest::AnyFloatingPoint => if caps.spec_sized_color_supported() {
            Some(InternalFormat::Rgba8)
        } else {
            Some(InternalFormat::Rgba)
        },
        TextureFormatRequest::AnySrgb => if caps.spec_srgb_supported() {
            Some(InternalFormat::Srgb8Alpha8)
        } else {
            None
        },
        TextureFormatRequest::AnyCompressed => if caps.spec_s3tc_supported() {
            Some(InternalFormat::CompressedRgbaS3tcDxt5)
        } else if caps.spec_generic_compression_supported() {
            Some(InternalFormat::CompressedRgba)
        } else {
            None
        },
        TextureFormatRequest::AnyCompressedSrgb => if !caps.spec_srgb_supported() {
            None
        } else if caps.spec_s3tc_supported() {
            Some(InternalFormat::CompressedSrgbAlphaS3tcDxt5)
        } else if caps.spec_generic_compression_supported() {
            Some(InternalFormat::CompressedSrgbAlpha)
        } else {
            None
        },
        TextureFormatRequest::AnyIntegral => if caps.spec_integer_supported() {
            Some(InternalFormat::Rgba32i)
        } else {
            None
        },
        TextureFormatRequest::AnyUnsigned => if caps.spec_integer_supported() {
            Some(InternalFormat::Rgba32ui)
        } else {
            None
        },
        TextureFormatRequest::AnyDepth => if caps.spec_depth_supported() {
            Some(InternalFormat::DepthComponent24)
        } else {
            None
        },
        TextureFormatRequest::AnyStencil => if caps.spec_stencil_supported() {
            Some(InternalFormat::StencilIndex8)
        } else {
            None
        },
        TextureFormatRequest::AnyDepthStencil => if caps.spec_depth_stencil_supported() {
            Some(InternalFormat::Depth24Stencil8)
        } else {
            None
        },
        TextureFormatRequest::Specific(f) => spec_specific_format(caps, f),
    }
}

/// The internal format of a standard compressed payload format.
pub open spec fn spec_compressed_internal(f: CompressedFormat) -> InternalFormat {
    match f {
        CompressedFormat::S3tcDxt1NoAlpha => InternalFormat::CompressedRgbS3tcDxt1,
        CompressedFormat::S3tcDxt1Alpha => InternalFormat::CompressedRgbaS3tcDxt1,
        CompressedFormat::S3tcDxt3Alpha => InternalFormat::CompressedRgbaS3tcDxt3,
        CompressedFormat::S3tcDxt5Alpha => InternalFormat::CompressedRgbaS3tcDxt5,
    }
}

/// The internal format of a standard compressed sRGB payload format.
pub open spec fn spec_compressed_srgb_internal(f: CompressedSrgbFormat) -> InternalFormat {
    match f {
        CompressedSrgbFormat::S3tcDxt1NoAlpha => InternalFormat::CompressedSrgbS3tcDxt1,
        CompressedSrgbFormat::S3tcDxt1Alpha => InternalFormat::CompressedSrgbAlphaS3tcDxt1,
        CompressedSrgbFormat::S3tcDxt3Alpha => InternalFormat::CompressedSrgbAlphaS3tcDxt3,
        CompressedSrgbFormat::S3tcDxt5Alpha => InternalFormat::CompressedSrgbAlphaS3tcDxt5,
    }
}

/// The internal format of a specific concrete request, `None` when the
/// snapshot does not support it.
pub open spec fn spec_specific_format(
    caps: CapabilitySnapshot,
    f: TextureFormat,
) -> Option<InternalFormat> {
    match f {
        TextureFormat::UncompressedFloat(g) => match g {
            UncompressedFloatFormat::U8U8U8U8 => Some(InternalFormat::Rgba8),
            UncompressedFloatFormat::U16U16U16U16 => Some(InternalFormat::Rgba16),
            UncompressedFloatFormat::F32F32F32F32 => if caps.spec_float_storage_supported() {
                Some(InternalFormat::Rgba32f)
            } else {
                None
            },
        },
        TextureFormat::Srgb(g) => match g {
            SrgbFormat::Srgb8Alpha8 => if caps.spec_srgb_supported() {
                Some(InternalFormat::Srgb8Alpha8)
            } else {
                None
            },
        },
        TextureFormat::CompressedFormat(g) => if caps.spec_s3tc_supported() {
            Some(spec_compressed_internal(g))
        } else {
            None
        },
        TextureFormat::CompressedSrgbFormat(g) => if caps.spec_s3tc_supported()
            && caps.spec_srgb_supported() {
            Some(spec_compressed_srgb_internal(g))
        } else {
            None
        },
        TextureFormat::UncompressedIntegral(g) => match g {
            UncompressedIntFormat::I32I32I32I32 => if caps.spec_integer_supported() {
                Some(InternalFormat::Rgba32i)
            } else {
                None
            },
        },
        TextureFormat::UncompressedUnsigned(g) => match g {
            UncompressedUintFormat::U32U32U32U32 => if caps.spec_integer_supported() {
                Some(InternalFormat::Rgba32ui)
            } else {
                None
            },
        },
        TextureFormat::DepthFormat(g) => match g {
            DepthFormat::I16 => if caps.spec_depth_supported() {
                Some(InternalFormat::DepthComponent16)
            } else {
                None
            },
            DepthFormat::I24 => if caps.spec_depth_supported() {
                Some(InternalFormat::DepthComponent24)
            } else {
                None
            },
            DepthFormat::F32 => if caps.version.spec_at_least(Api::Gl, 3, 0) {
                Some(InternalFormat::DepthComponent32f)
            } else {
                None
            },
        },
        TextureFormat::StencilFormat(g) => match g {
            StencilFormat::I8 => if caps.spec_stencil_supported() {
                Some(InternalFormat::StencilIndex8)
            } else {
                None
            },
        },
        TextureFormat::DepthStencilFormat(g) => match g {
            DepthStencilFormat::I24I8 => if caps.spec_depth_stencil_supported() {
                Some(InternalFormat::Depth24Stencil8)
            } else {
                None
            },
        },
    }
}

/// The logical kind a request asks for, used to validate a
/// client-supplied transfer format against it.
#[derive(Copy, Clone, PartialEq, Eq, Structural, Debug)]
pub enum RequestKind {
    Color,
    Integer,
    Depth,
    Stencil,
    DepthStencil,
}

/// The logical kind of a request: plain, compressed and sRGB colour all
/// accept the same client encodings, integral formats take integer
/// layouts, and the depth/stencil kinds take their dedicated layouts.
pub open spec fn spec_request_kind(request: TextureFormatRequest) -> RequestKind {
    match request {
        TextureFormatRequest::AnyFloatingPoint => RequestKind::Color,
        TextureFormatRequest::AnyCompressed => RequestKind::Color,
        TextureFormatRequest::AnySrgb => RequestKind::Color,
        TextureFormatRequest::AnyCompressedSrgb => RequestKind::Color,
        TextureFormatRequest::AnyIntegral => RequestKind::Integer,
        TextureFormatRequest::AnyUnsigned => RequestKind::Integer,
        TextureFormatRequest::AnyDepth => RequestKind::Depth,
        TextureFormatRequest::AnyStencil => RequestKind::Stencil,
        TextureFormatRequest::AnyDepthStencil => RequestKind::DepthStencil,
        TextureFormatRequest::Specific(f) => match f {
            TextureFormat::UncompressedFloat(_) => RequestKind::Color,
            TextureFormat::CompressedFormat(_) => RequestKind::Color,
            TextureFormat::Srgb(_) => RequestKind::Color,
            TextureFormat::CompressedSrgbFormat(_) => RequestKind::Color,
            TextureFormat::UncompressedIntegral(_) => RequestKind::Integer,
            TextureFormat::UncompressedUnsigned(_) => RequestKind::Integer,
            TextureFormat::DepthFormat(_) => RequestKind::Depth,
            TextureFormat::StencilFormat(_) => RequestKind::Stencil,
            TextureFormat::DepthStencilFormat(_) => RequestKind::DepthStencil,
        },
    }
}

/// The component type of an uncompressed client format.
pub open spec fn spec_component_type(cf: ClientFormat) -> TransferType {
    match cf {
        ClientFormat::U8 => TransferType::U8,
        ClientFormat::U8U8 => TransferType::U8,
        ClientFormat::U8U8U8 => TransferType::U8,
        ClientFormat::U8U8U8U8 => TransferType::U8,
        ClientFormat::U16 => TransferType::U16,
        ClientFormat::U16U16 => TransferType::U16,
        ClientFormat::U16U16U16U16 => TransferType::U16,
        ClientFormat::U32 => TransferType::U32,
        ClientFormat::U32U32U32U32 => TransferType::U32,
        ClientFormat::F32 => TransferType::F32,
        ClientFormat::F32F32F32F32 => TransferType::F32,
    }
}

/// The transfer encoding of an uncompressed client format against a
/// request, or `None` when the two are incompatible:
/// colour requests take every client layout, integral requests take the
/// integer layouts (not floating-point components), and the
/// depth/stencil kinds take only their dedicated single-layout
/// encodings.
pub open spec fn spec_client_transfer(
    request: TextureFormatRequest,
    cf: ClientFormat,
) -> Option<TransferParams> {
    match spec_request_kind(request) {
        RequestKind::Color => Some(
            TransferParams {
                format: if crate::format::spec_channels(cf) == 1 {
                    TransferFormat::Red
                } else if crate::format::spec_channels(cf) == 2 {
                    TransferFormat::Rg
                } else if crate::format::spec_channels(cf) == 3 {
                    TransferFormat::Rgb
                } else {
                    TransferFormat::Rgba
                },
                ty: spec_component_type(cf),
            },
        ),
        RequestKind::Integer => if spec_component_type(cf) == TransferType::F32 {
            None
        } else {
            Some(
                TransferParams {
                    format: if crate::format::spec_channels(cf) == 1 {
                        TransferFormat::RedInteger
                    } else if crate::format::spec_channels(cf) == 2 {
                        TransferFormat::RgInteger
                    } else if crate::format::spec_channels(cf) == 3 {
                        TransferFormat::RgbInteger
                    } else {
                        TransferFormat::RgbaInteger
                    },
                    ty: spec_component_type(cf),
                },
            )
        },
        RequestKind::Depth => match cf {
            ClientFormat::U16 => Some(
                TransferParams { format: TransferFormat::DepthComponent, ty: TransferType::U16 },
            ),
            ClientFormat::U32 => Some(
                TransferParams { format: TransferFormat::DepthComponent, ty: TransferType::U32 },
            ),
            ClientFormat::F32 => Some(
                TransferParams { format: TransferFormat::DepthComponent, ty: TransferType::F32 },
            ),
            _ => None,
        },
        RequestKind::Stencil => match cf {
            ClientFormat::U8 => Some(
                TransferParams { format: TransferFormat::StencilIndex, ty: TransferType::U8 },
            ),
            _ => None,
        },
        RequestKind::DepthStencil => match cf {
            ClientFormat::U32 => Some(
                TransferParams {
                    format: TransferFormat::DepthStencil,
                    ty: TransferType::UnsignedInt24_8,
                },
            ),
            _ => None,
        },
    }
}

/// The transfer encoding assumed when the caller supplies no data: the
/// dedicated encoding for the depth and depth + stencil kinds, plain
/// four-channel bytes otherwise.
pub open spec fn spec_default_transfer(request: TextureFormatRequest) -> TransferParams {
    match spec_request_kind(request) {
        RequestKind::Depth => TransferParams {
            format: TransferFormat::DepthComponent,
            ty: TransferType::F32,
        },
        RequestKind::DepthStencil => TransferParams {
            format: TransferFormat::DepthStencil,
            ty: TransferType::UnsignedInt24_8,
        },
        _ => TransferParams { format: TransferFormat::Rgba, ty: TransferType::U8 },
    }
}

/// The storage format to preallocate: the chosen internal format exactly
/// when the snapshot supports immutable storage and the format has a
/// fixed layout.
pub open spec fn spec_storage_format(
    caps: CapabilitySnapshot,
    internal: InternalFormat,
) -> Option<InternalFormat> {
    if caps.spec_storage_supported() && internal.spec_is_sized() {
        Some(internal)
    } else {
        None
    }
}

/// The full negotiation decision; pure in all three inputs.
///
/// A compressed client payload must match the requested format (the
/// matching wildcard or the identical specific format) and bypasses
/// transfer-encoding derivation; its internal format is the payload's
/// own and needs standard-compression support. Otherwise the request is
/// resolved against the snapshot (`UnsupportedFormat` when that fails),
/// and a client-supplied uncompressed encoding is validated against the
/// request's kind (`IncompatibleClientFormat` when they do not fit).
pub open spec fn spec_negotiate(
    caps: CapabilitySnapshot,
    request: TextureFormatRequest,
    client: Option<ClientFormatAny>,
) -> Result<NegotiatedFormat, TextureCreationError> {
    match client {
        Some(ClientFormatAny::CompressedFormat(f)) => {
            let matches_request = request == TextureFormatRequest::AnyCompressed || request
                == TextureFormatRequest::Specific(TextureFormat::CompressedFormat(f));
            if !matches_request {
                Err(TextureCreationError::IncompatibleClientFormat)
            } else if !caps.spec_s3tc_supported() {
                Err(TextureCreationError::UnsupportedFormat)
            } else {
                Ok(
                    NegotiatedFormat {
                        teximg_format: spec_compressed_internal(f),
                        storage_format: spec_storage_format(caps, spec_compressed_internal(f)),
                        transfer: None,
                    },
                )
            }
        },
        Some(ClientFormatAny::CompressedSrgbFormat(f)) => {
            let matches_request = request == TextureFormatRequest::AnyCompressedSrgb || request
                == TextureFormatRequest::Specific(TextureFormat::CompressedSrgbFormat(f));
            if !matches_request {
                Err(TextureCreationError::IncompatibleClientFormat)
            } else if !(caps.spec_s3tc_supported() && caps.spec_srgb_supported()) {
                Err(TextureCreationError::UnsupportedFormat)
            } else {
                Ok(
                    NegotiatedFormat {
                        teximg_format: spec_compressed_srgb_internal(f),
                        storage_format: spec_storage_format(
                            caps,
                            spec_compressed_srgb_internal(f),
                        ),
                        transfer: None,
                    },
                )
            }
        },
        Some(ClientFormatAny::ClientFormat(cf)) => {
            match spec_wildcard_format(caps, request) {
                None => Err(TextureCreationError::UnsupportedFormat),
                Some(internal) => match spec_client_transfer(request, cf) {
                    None => Err(TextureCreationError::IncompatibleClientFormat),
                    Some(t) => Ok(
                        NegotiatedFormat {
                            teximg_format: internal,
                            storage_format: spec_storage_format(caps, internal),
                            transfer: Some(t),
                        },
                    ),
                },
            }
        },
        None => {
            match spec_wildcard_format(caps, request) {
                None => Err(TextureCreationError::UnsupportedFormat),
                Some(internal) => Ok(
                    NegotiatedFormat {
                        teximg_format: internal,
                        storage_format: spec_storage_format(caps, internal),
                        transfer: Some(spec_default_transfer(request)),
                    },
                ),
            }
        },
    }
}

/// Requesting the same format twice against an unchanged capability
/// snapshot yields the identical negotiation result: negotiation is a
/// pure function of the snapshot, the request and the client encoding,
/// so any two outcomes of the same inputs are equal.
pub proof fn lemma_negotiation_idempotent(
    caps: CapabilitySnapshot,
    request: TextureFormatRequest,
    client: Option<ClientFormatAny>,
    first: Result<NegotiatedFormat, TextureCreationError>,
    second: Result<NegotiatedFormat, TextureCreationError>,
)
    requires
        first == spec_negotiate(caps, request, client),
        second == spec_negotiate(caps, request, client),
    ensures
        first == second,
{
}

/// Preallocated immutable storage is strictly an optimization: whenever
/// negotiation selects a storage format at all, it is exactly the format
/// of the one-step allocation path, so the stored format — and with it
/// every observable result — does not depend on which path creation
/// takes.
pub proof fn lemma_storage_is_only_an_optimization(
    caps: CapabilitySnapshot,
    request: TextureFormatRequest,
    client: Option<ClientFormatAny>,
)
    ensures
        (spec_negotiate(caps, request, client) matches Ok(neg) && neg.storage_format is Some)
            ==> (spec_negotiate(caps, request, client)->Ok_0).storage_format->0 == (spec_negotiate(
            caps,
            request,
            client,
        )->Ok_0).teximg_format,
{
}

/// Resolves a format request against the capability snapshot, validating
/// any client-supplied payload encoding.
pub fn negotiate(
    caps: &CapabilitySnapshot,
    request: TextureFormatRequest,
    client: Option<ClientFormatAny>,
) -> (r: Result<NegotiatedFormat, TextureCreationError>)
    ensures
        r == spec_negotiate(*caps, request, client),
{
    match client {
        Some(ClientFormatAny::CompressedFormat(f)) => {
            let matches_request = matches!(request, TextureFormatRequest::AnyCompressed) || (
            match request {
                TextureFormatRequest::Specific(TextureFormat::CompressedFormat(g)) => g == f,
                _ => false,
            });
            if !matches_request {
                Err(TextureCreationError::IncompatibleClientFormat)
            } else if !caps.extensions.gl_ext_texture_compression_s3tc {
                Err(TextureCreationError::UnsupportedFormat)
            } else {
                let internal: InternalFormat = compressed_internal(f);
                Ok(
                    NegotiatedFormat {
                        teximg_format: internal,
                        storage_format: storage_format(caps, internal),
                        transfer: None,
                    },
                )
            }
        },
        Some(ClientFormatAny::CompressedSrgbFormat(f)) => {
            let matches_request = matches!(request, TextureFormatRequest::AnyCompressedSrgb) || (
            match request {
                TextureFormatRequest::Specific(TextureFormat::CompressedSrgbFormat(g)) => g == f,
                _ => false,
            });
            let srgb: bool = caps.version.at_least(Api::Gl, 2, 1)
                || caps.extensions.gl_ext_texture_srgb;
            if !matches_request {
                Err(TextureCreationError::IncompatibleClientFormat)
            } else if !(caps.extensions.gl_ext_texture_compression_s3tc && srgb) {
                Err(TextureCreationError::UnsupportedFormat)
            } else {
                let internal: InternalFormat = compressed_srgb_internal(f);
                Ok(
                    NegotiatedFormat {
                        teximg_format: internal,
                        storage_format: storage_format(caps, internal),
                        transfer: None,
                    },
                )
            }
        },
        Some(ClientFormatAny::ClientFormat(cf)) => {
            match wildcard_format(caps, request) {
                None => Err(TextureCreationError::UnsupportedFormat),
                Some(internal) => match client_transfer(request, cf) {
                    None => Err(TextureCreationError::IncompatibleClientFormat),
                    Some(t) => Ok(
                        NegotiatedFormat {
                            teximg_format: internal,
                            storage_format: storage_format(caps, internal),
                            transfer: Some(t),
                        },
                    ),
                },
            }
        },
        None => {
            match wildcard_format(caps, request) {
                None => Err(TextureCreationError::UnsupportedFormat),
                Some(internal) => Ok(
                    NegotiatedFormat {
                        teximg_format: internal,
                        storage_format: storage_format(caps, internal),
                        transfer: Some(default_transfer(request)),
                    },
                ),
            }
        },
    }
}

/// Resolves a wildcard or specific request to its internal format.
fn wildcard_format(caps: &CapabilitySnapshot, request: TextureFormatRequest) -> (r: Option<
    InternalFormat,
>)
    ensures
        r == spec_wildcard_format(*caps, request),
{
    let srgb: bool = caps.version.at_least(Api::Gl, 2, 1) || caps.extensions.gl_ext_texture_srgb;
    let s3tc: bool = caps.extensions.gl_ext_texture_compression_s3tc;
    let generic: bool = caps.version.at_least(Api::Gl, 1, 3);
    let integer: bool = caps.version.at_least(Api::Gl, 3, 0)
        || caps.extensions.gl_ext_texture_integer;
    let depth: bool = caps.version.at_least(Api::Gl, 1, 4) || caps.extensions.gl_arb_depth_texture;
    let stencil: bool = caps.version.at_least(Api::Gl, 4, 4)
        || caps.extensions.gl_arb_texture_stencil8;
    let depth_stencil: bool = caps.version.at_least(Api::Gl, 3, 0)
        || caps.extensions.gl_ext_packed_depth_stencil;
    let sized_color: bool = caps.version.at_least(Api::Gl, 3, 0)
        || caps.version.at_least(Api::GlEs, 3, 0);
    match request {
        TextureFormatRequest::AnyFloatingPoint => if sized_color {
            Some(InternalFormat::Rgba8)
        } else {
            Some(InternalFormat::Rgba)
        },
        TextureFormatRequest::AnySrgb => if srgb {
            Some(InternalFormat::Srgb8Alpha8)
        } else {
            None
        },
        TextureFormatRequest::AnyCompressed => if s3tc {
            Some(InternalFormat::CompressedRgbaS3tcDxt5)
        } else if generic {
            Some(InternalFormat::CompressedRgba)
        } else {
            None
        },
        TextureFormatRequest::AnyCompressedSrgb => if !srgb {
            None
        } else if s3tc {
            Some(InternalFormat::CompressedSrgbAlphaS3tcDxt5)
        } else if generic {
            Some(InternalFormat::CompressedSrgbAlpha)
        } else {
            None
        },
        TextureFormatRequest::AnyIntegral => if integer {
            Some(InternalFormat::Rgba32i)
        } else {
            None
        },
        TextureFormatRequest::AnyUnsigned => if integer {
            Some(InternalFormat::Rgba32ui)
        } else {
            None
        },
        TextureFormatRequest::AnyDepth => if depth {
            Some(InternalFormat::DepthComponent24)
        } else {
            None
        },
        TextureFormatRequest::AnyStencil => if stencil {
            Some(InternalFormat::StencilIndex8)
        } else {
            None
        },
        TextureFormatRequest::AnyDepthStencil => if depth_stencil {
            Some(InternalFormat::Depth24Stencil8)
        } else {
            None
        },
        TextureFormatRequest::Specific(f) => specific_format(caps, f),
    }
}

/// Resolves a specific concrete request to its internal format.
fn specific_format(caps: &CapabilitySnapshot, f: TextureFormat) -> (r: Option<InternalFormat>)
    ensures
        r == spec_specific_format(*caps, f),
{
    let srgb: bool = caps.version.at_least(Api::Gl, 2, 1) || caps.extensions.gl_ext_texture_srgb;
    let s3tc: bool = caps.extensions.gl_ext_texture_compression_s3tc;
    let integer: bool = caps.version.at_least(Api::Gl, 3, 0)
        || caps.extensions.gl_ext_texture_integer;
    let depth: bool = caps.version.at_least(Api::Gl, 1, 4) || caps.extensions.gl_arb_depth_texture;
    let stencil: bool = caps.version.at_least(Api::Gl, 4, 4)
        || caps.extensions.gl_arb_texture_stencil8;
    let depth_stencil: bool = caps.version.at_least(Api::Gl, 3, 0)
        || caps.extensions.gl_ext_packed_depth_stencil;
    let float_storage: bool = caps.version.at_least(Api::Gl, 3, 0)
        || caps.extensions.gl_arb_texture_float;
    match f {
        TextureFormat::UncompressedFloat(g) => match g {
            UncompressedFloatFormat::U8U8U8U8 => Some(InternalFormat::Rgba8),
            UncompressedFloatFormat::U16U16U16U16 => Some(InternalFormat::Rgba16),
            UncompressedFloatFormat::F32F32F32F32 => if float_storage {
                Some(InternalFormat::Rgba32f)
            } else {
                None
            },
        },
        TextureFormat::Srgb(g) => match g {
            SrgbFormat::Srgb8Alpha8 => if srgb {
                Some(InternalFormat::Srgb8Alpha8)
            } else {
                None
            },
        },
        TextureFormat::CompressedFormat(g) => if s3tc {
            Some(compressed_internal(g))
        } else {
            None
        },
        TextureFormat::CompressedSrgbFormat(g) => if s3tc && srgb {
            Some(compressed_srgb_internal(g))
        } else {
            None
        },
        TextureFormat::UncompressedIntegral(g) => match g {
            UncompressedIntFormat::I32I32I32I32 => if integer {
                Some(InternalFormat::Rgba32i)
            } else {
                None
            },
        },
        TextureFormat::UncompressedUnsigned(g) => match g {
            UncompressedUintFormat::U32U32U32U32 => if integer {
                Some(InternalFormat::Rgba32ui)
            } else {
                None
            },
        },
        TextureFormat::DepthFormat(g) => match g {
            DepthFormat::I16 => if depth {
                Some(InternalFormat::DepthComponent16)
            } else {
                None
            },
            DepthFormat::I24 => if depth {
                Some(InternalFormat::DepthComponent24)
            } else {
                None
            },
            DepthFormat::F32 => if caps.version.at_least(Api::Gl, 3, 0) {
                Some(InternalFormat::DepthComponent32f)
            } else {
                None
            },
        },
        TextureFormat::StencilFormat(g) => match g {
            StencilFormat::I8 => if stencil {
                Some(InternalFormat::StencilIndex8)
            } else {
                None
            },
        },
        TextureFormat::DepthStencilFormat(g) => match g {
            DepthStencilFormat::I24I8 => if depth_stencil {
                Some(InternalFormat::Depth24Stencil8)
            } else {
                None
            },
        },
    }
}

/// Maps a standard compressed payload format to its internal format.
pub fn compressed_internal(f: CompressedFormat) -> (r: InternalFormat)
    ensures
        r == spec_compressed_internal(f),
{
    match f {
        CompressedFormat::S3tcDxt1NoAlpha => InternalFormat::CompressedRgbS3tcDxt1,
        CompressedFormat::S3tcDxt1Alpha => InternalFormat::CompressedRgbaS3tcDxt1,
        CompressedFormat::S3tcDxt3Alpha => InternalFormat::CompressedRgbaS3tcDxt3,
        CompressedFormat::S3tcDxt5Alpha => InternalFormat::CompressedRgbaS3tcDxt5,
    }
}

/// Maps a standard compressed sRGB payload format to its internal
/// format.
pub fn compressed_srgb_internal(f: CompressedSrgbFormat) -> (r: InternalFormat)
    ensures
        r == spec_compressed_srgb_internal(f),
{
    match f {
        CompressedSrgbFormat::S3tcDxt1NoAlpha => InternalFormat::CompressedSrgbS3tcDxt1,
        CompressedSrgbFormat::S3tcDxt1Alpha => InternalFormat::CompressedSrgbAlphaS3tcDxt1,
        CompressedSrgbFormat::S3tcDxt3Alpha => InternalFormat::CompressedSrgbAlphaS3tcDxt3,
        CompressedSrgbFormat::S3tcDxt5Alpha => InternalFormat::CompressedSrgbAlphaS3tcDxt5,
    }
}

/// Computes the storage format to preallocate, if any.
fn storage_format(caps: &CapabilitySnapshot, internal: InternalFormat) -> (r: Option<
    InternalFormat,
>)
    ensures
        r == spec_storage_format(*caps, internal),
{
    if caps.storage_supported() && internal.is_sized() {
        Some(internal)
    } else {
        None
    }
}

/// Derives and validates the transfer encoding of an uncompressed client
/// format against a request.
pub fn client_transfer(request: TextureFormatRequest, cf: ClientFormat) -> (r: Option<
    TransferParams,
>)
    ensures
        r == spec_client_transfer(request, cf),
{
    let kind: RequestKind = request_kind(request);
    match kind {
        RequestKind::Color => {
            let channels: u32 = crate::format::channels(cf);
            Some(
                TransferParams {
                    format: if channels == 1 {
                        TransferFormat::Red
                    } else if channels == 2 {
                        TransferFormat::Rg
                    } else if channels == 3 {
                        TransferFormat::Rgb
                    } else {
                        TransferFormat::Rgba
                    },
                    ty: component_type(cf),
                },
            )
        },
        RequestKind::Integer => {
            let ty: TransferType = component_type(cf);
            if ty == TransferType::F32 {
                None
            } else {
                let channels: u32 = crate::format::channels(cf);
                Some(
                    TransferParams {
                        format: if channels == 1 {
                            TransferFormat::RedInteger
                        } else if channels == 2 {
                            TransferFormat::RgInteger
                        } else if channels == 3 {
                            TransferFormat::RgbInteger
                        } else {
                            TransferFormat::RgbaInteger
                        },
                        ty,
                    },
                )
            }
        },
        RequestKind::Depth => match cf {
            ClientFormat::U16 => Some(
                TransferParams { format: TransferFormat::DepthComponent, ty: TransferType::U16 },
            ),
            ClientFormat::U32 => Some(
                TransferParams { format: TransferFormat::DepthComponent, ty: TransferType::U32 },
            ),
            ClientFormat::F32 => Some(
                TransferParams { format: TransferFormat::DepthComponent, ty: TransferType::F32 },
            ),
            _ => None,
        },
        RequestKind::Stencil => match cf {
            ClientFormat::U8 => Some(
                TransferParams { format: TransferFormat::StencilIndex, ty: TransferType::U8 },
            ),
            _ => None,
        },
        RequestKind::DepthStencil => match cf {
            ClientFormat::U32 => Some(
                TransferParams {
                    format: TransferFormat::DepthStencil,
                    ty: TransferType::UnsignedInt24_8,
                },
            ),
            _ => None,
        },
    }
}

/// The logical kind of a request.
pub fn request_kind(request: TextureFormatRequest) -> (r: RequestKind)
    ensures
        r == spec_request_kind(request),
{
    match request {
        TextureFormatRequest::AnyFloatingPoint => RequestKind::Color,
        TextureFormatRequest::AnyCompressed => RequestKind::Color,
        TextureFormatRequest::AnySrgb => RequestKind::Color,
        TextureFormatRequest::AnyCompressedSrgb => RequestKind::Color,
        TextureFormatRequest::AnyIntegral => RequestKind::Integer,
        TextureFormatRequest::AnyUnsigned => RequestKind::Integer,
        TextureFormatRequest::AnyDepth => RequestKind::Depth,
        TextureFormatRequest::AnyStencil => RequestKind::Stencil,
        TextureFormatRequest::AnyDepthStencil => RequestKind::DepthStencil,
        TextureFormatRequest::Specific(f) => match f {
            TextureFormat::UncompressedFloat(_) => RequestKind::Color,
            TextureFormat::CompressedFormat(_) => RequestKind::Color,
            TextureFormat::Srgb(_) => RequestKind::Color,
            TextureFormat::CompressedSrgbFormat(_) => RequestKind::Color,
            TextureFormat::UncompressedIntegral(_) => RequestKind::Integer,
            TextureFormat::UncompressedUnsigned(_) => RequestKind::Integer,
            TextureFormat::DepthFormat(_) => RequestKind::Depth,
            TextureFormat::StencilFormat(_) => RequestKind::Stencil,
            TextureFormat::DepthStencilFormat(_) => RequestKind::DepthStencil,
        },
    }
}

/// The component type of an uncompressed client format.
fn component_type(cf: ClientFormat) -> (r: TransferType)
    ensures
        r == spec_component_type(cf),
{
    match cf {
        ClientFormat::U8 => TransferType::U8,
        ClientFormat::U8U8 => TransferType::U8,
        ClientFormat::U8U8U8 => TransferType::U8,
        ClientFormat::U8U8U8U8 => TransferType::U8,
        ClientFormat::U16 => TransferType::U16,
        ClientFormat::U16U16 => TransferType::U16,
        ClientFormat::U16U16U16U16 => TransferType::U16,
        ClientFormat::U32 => TransferType::U32,
        ClientFormat::U32U32U32U32 => TransferType::U32,
        ClientFormat::F32 => TransferType::F32,
        ClientFormat::F32F32F32F32 => TransferType::F32,
    }
}

/// The transfer encoding assumed when the caller supplies no data.
pub fn default_transfer(request: TextureFormatRequest) -> (r: TransferParams)
    ensures
        r == spec_default_transfer(request),
{
    let kind: RequestKind = request_kind(request);
    match kind {
        RequestKind::Depth => TransferParams {
            format: TransferFormat::DepthComponent,
            ty: TransferType::F32,
        },
        RequestKind::DepthStencil => TransferParams {
            format: TransferFormat::DepthStencil,
            ty: TransferType::UnsignedInt24_8,
        },
        _ => TransferParams { format: TransferFormat::Rgba, ty: TransferType::U8 },
    }
}

} // verus!
