//! The format vocabulary: client transfer formats, compressed payload
//! formats, concrete internal formats, logical format requests, and the
//! mipmap policy with its level-count arithmetic.

use vstd::prelude::*;

verus! {

/// Encoding of uncompressed pixel data as supplied by the caller.
///
/// The name lists the channels in order; each letter/width pair is one
/// channel (`U8U8U8U8` is four unsigned bytes per pixel).
#[derive(Copy, Clone, PartialEq, Eq, Structural, Debug)]
pub enum ClientFormat {
    U8,
    U8U8,
    U8U8U8,
    U8U8U8U8,
    U16,
    U16U16,
    U16U16U16U16,
    U32,
    U32U32U32U32,
    F32,
    F32F32F32F32,
}

impl ClientFormat {
    /// Size of one pixel in bytes.
    pub open spec fn spec_size(self) -> nat {
        match self {
            ClientFormat::U8 => 1,
            ClientFormat::U8U8 => 2,
            ClientFormat::U8U8U8 => 3,
            ClientFormat::U8U8U8U8 => 4,
            ClientFormat::U16 => 2,
            ClientFormat::U16U16 => 4,
            ClientFormat::U16U16U16U16 => 8,
            ClientFormat::U32 => 4,
            ClientFormat::U32U32U32U32 => 16,
            ClientFormat::F32 => 4,
            ClientFormat::F32F32F32F32 => 16,
        }
    }

    /// Size of one pixel in bytes.
    pub fn get_size(&self) -> (r: usize)
        ensures
            r == self.spec_size(),
    {
        match self {
            ClientFormat::U8 => 1,
            ClientFormat::U8U8 => 2,
            ClientFormat::U8U8U8 => 3,
            ClientFormat::U8U8U8U8 => 4,
            ClientFormat::U16 => 2,
            ClientFormat::U16U16 => 4,
            ClientFormat::U16U16U16U16 => 8,
            ClientFormat::U32 => 4,
            ClientFormat::U32U32U32U32 => 16,
            ClientFormat::F32 => 4,
            ClientFormat::F32F32F32F32 => 16,
        }
    }
}

/// A block-compressed payload format (4x4 texel blocks).
#[derive(Copy, Clone, PartialEq, Eq, Structural, Debug)]
pub enum CompressedFormat {
    S3tcDxt1NoAlpha,
    S3tcDxt1Alpha,
    S3tcDxt3Alpha,
    S3tcDxt5Alpha,
}

impl CompressedFormat {
    /// Size of one 4x4 block in bytes.
    pub open spec fn spec_block_bytes(self) -> nat {
        match self {
            CompressedFormat::S3tcDxt1NoAlpha => 8,
            CompressedFormat::S3tcDxt1Alpha => 8,
            CompressedFormat::S3tcDxt3Alpha => 16,
            CompressedFormat::S3tcDxt5Alpha => 16,
        }
    }

    /// Size of one 4x4 block in bytes.
    pub fn block_bytes(&self) -> (r: usize)
        ensures
            r == self.spec_block_bytes(),
    {
        match self {
            CompressedFormat::S3tcDxt1NoAlpha => 8,
            CompressedFormat::S3tcDxt1Alpha => 8,
            CompressedFormat::S3tcDxt3Alpha => 16,
            CompressedFormat::S3tcDxt5Alpha => 16,
        }
    }
}

/// A block-compressed payload format with sRGB colour encoding.
#[derive(Copy, Clone, PartialEq, Eq, Structural, Debug)]
pub enum CompressedSrgbFormat {
    S3tcDxt1NoAlpha,
    S3tcDxt1Alpha,
    S3tcDxt3Alpha,
    S3tcDxt5Alpha,
}

impl CompressedSrgbFormat {
    /// Size of one 4x4 block in bytes.
    pub open spec fn spec_block_bytes(self) -> nat {
        match self {
            CompressedSrgbFormat::S3tcDxt1NoAlpha => 8,
            CompressedSrgbFormat::S3tcDxt1Alpha => 8,
            CompressedSrgbFormat::S3tcDxt3Alpha => 16,
            CompressedSrgbFormat::S3tcDxt5Alpha => 16,
        }
    }

    /// Size of one 4x4 block in bytes.
    pub fn block_bytes(&self) -> (r: usize)
        ensures
            r == self.spec_block_bytes(),
    {
        match self {
            CompressedSrgbFormat::S3tcDxt1NoAlpha => 8,
            CompressedSrgbFormat::S3tcDxt1Alpha => 8,
            CompressedSrgbFormat::S3tcDxt3Alpha => 16,
            CompressedSrgbFormat::S3tcDxt5Alpha => 16,
        }
    }
}

/// The encoding of caller-supplied pixel data: either an uncompressed
/// per-pixel format or a compressed block format whose payload is copied
/// verbatim.
#[derive(Copy, Clone, PartialEq, Eq, Structural, Debug)]
pub enum ClientFormatAny {
    ClientFormat(ClientFormat),
    CompressedFormat(CompressedFormat),
    CompressedSrgbFormat(CompressedSrgbFormat),
}

/// `1` for an absent axis, the stored extent otherwise.
pub open spec fn axis_or_1(axis: Option<u32>) -> nat {
    match axis {
        Some(v) => v as nat,
        None => 1,
    }
}

/// Number of 4x4 blocks covering `extent` texels on one axis.
pub open spec fn blocks_on_axis(extent: nat) -> nat {
    (extent + 3) / 4
}

impl ClientFormatAny {
    /// Whether the payload is block-compressed.
    pub open spec fn spec_is_compressed(self) -> bool {
        !(self is ClientFormat)
    }

    /// Whether the payload is block-compressed.
    pub fn is_compressed(&self) -> (r: bool)
        ensures
            r == self.spec_is_compressed(),
    {
        match self {
            ClientFormatAny::ClientFormat(_) => false,
            ClientFormatAny::CompressedFormat(_) => true,
            ClientFormatAny::CompressedSrgbFormat(_) => true,
        }
    }

    /// Exact byte size of a payload covering `width` x `height` x `depth`
    /// texels over `array_size` layers; an absent axis counts as one texel.
    ///
    /// Uncompressed data is `texels * pixel size`; compressed data is
    /// counted in 4x4 blocks on the first two axes.
    pub open spec fn spec_buffer_size(
        self,
        width: u32,
        height: Option<u32>,
        depth: Option<u32>,
        array_size: Option<u32>,
    ) -> nat {
        match self {
            ClientFormatAny::ClientFormat(f) => (width as nat) * axis_or_1(height) * axis_or_1(
                depth,
            ) * axis_or_1(array_size) * f.spec_size(),
            ClientFormatAny::CompressedFormat(f) => blocks_on_axis(width as nat) * blocks_on_axis(
                axis_or_1(height),
            ) * axis_or_1(depth) * axis_or_1(array_size) * f.spec_block_bytes(),
            ClientFormatAny::CompressedSrgbFormat(f) => blocks_on_axis(width as nat)
                * blocks_on_axis(axis_or_1(height)) * axis_or_1(depth) * axis_or_1(array_size)
                * f.spec_block_bytes(),
        }
    }

    /// Computes the exact byte size a payload of this format must have.
    pub fn get_buffer_size(
        &self,
        width: u32,
        height: Option<u32>,
        depth: Option<u32>,
        array_size: Option<u32>,
    ) -> (r: usize)
        requires
            self.spec_buffer_size(width, height, depth, array_size) <= usize::MAX,
        ensures
            r == self.spec_buffer_size(width, height, depth, array_size),
    {
        let h: u32 = height.unwrap_or(1);
        let d: u32 = depth.unwrap_or(1);
        let a: u32 = array_size.unwrap_or(1);
        match self {
            ClientFormatAny::ClientFormat(f) => {
                let per_pixel: usize = f.get_size();
                checked_product5(width as usize, h as usize, d as usize, a as usize, per_pixel)
            },
            ClientFormatAny::CompressedFormat(f) => {
                let bx: usize = blocks(width);
                let by: usize = blocks(h);
                let per_block: usize = f.block_bytes();
                checked_product5(bx, by, d as usize, a as usize, per_block)
            },
            ClientFormatAny::CompressedSrgbFormat(f) => {
                let bx: usize = blocks(width);
                let by: usize = blocks(h);
                let per_block: usize = f.block_bytes();
                checked_product5(bx, by, d as usize, a as usize, per_block)
            },
        }
    }
}

/// Counts the 4x4 blocks covering `extent` texels on one axis.
pub fn blocks(extent: u32) -> (r: usize)
    ensures
        r == blocks_on_axis(extent as nat),
{
    let whole: u32 = extent / 4;
    let partial: u32 = if extent % 4 == 0 {
        0
    } else {
        1
    };
    assert(whole + partial == (extent as nat + 3) / 4) by (nonlinear_arith)
        requires
            whole == extent as nat / 4,
            partial == (if extent as nat % 4 == 0 {
                0int
            } else {
                1int
            }),
    ;
    (whole + partial) as usize
}

/// Multiplies five factors whose product is known not to overflow.
fn checked_product5(v: usize, w: usize, x: usize, y: usize, z: usize) -> (r: usize)
    requires
        v * w * x * y * z <= usize::MAX,
    ensures
        r == v * w * x * y * z,
{
    if v == 0 || w == 0 || x == 0 || y == 0 || z == 0 {
        assert(v * w * x * y * z == 0) by (nonlinear_arith)
            requires
                v == 0 || w == 0 || x == 0 || y == 0 || z == 0,
        ;
        0
    } else {
        assert(v * w <= v * w * x * y * z && v * w * x <= v * w * x * y * z && v * w * x * y <= v
            * w * x * y * z) by (nonlinear_arith)
            requires
                v >= 1 && w >= 1 && x >= 1 && y >= 1 && z >= 1,
        ;
        v * w * x * y * z
    }
}

/// Floor of the base-two logarithm; zero for inputs below two.
pub open spec fn log2_floor(n: nat) -> nat
    decreases n,
{
    if n <= 1 {
        0
    } else {
        1 + log2_floor(n / 2)
    }
}

/// `log2_floor` never exceeds 31 on a `u32` extent.
pub proof fn lemma_log2_floor_u32_bound(n: nat)
    requires
        n <= u32::MAX,
    ensures
        log2_floor(n) <= 31,
    decreases n,
{
    vstd::arithmetic::power2::lemma2_to64();
    lemma_log2_floor_below(n, 32);
}

/// `n < 2^k` implies `log2_floor(n) < k` (for `k` at least one).
pub proof fn lemma_log2_floor_below(n: nat, k: nat)
    requires
        k >= 1,
        n < vstd::arithmetic::power2::pow2(k),
    ensures
        log2_floor(n) < k,
    decreases k,
{
    vstd::arithmetic::power2::lemma_pow2_unfold(k);
    if n <= 1 {
    } else {
        vstd::arithmetic::power2::lemma2_to64();
        lemma_log2_floor_below(n / 2, (k - 1) as nat);
    }
}

/// The requested mipmap policy of a texture.
#[derive(Copy, Clone, PartialEq, Eq, Structural, Debug)]
pub enum MipmapsOption {
    /// Only the main level is allocated.
    NoMipmap,
    /// The whole mipmap chain is allocated but left empty.
    EmptyMipmaps,
    /// At most the given number of levels is allocated and left empty.
    EmptyMipmapsMax(u32),
    /// The whole mipmap chain is allocated and regenerated automatically.
    AutoGeneratedMipmaps,
    /// At most the given number of levels is allocated and regenerated
    /// automatically.
    AutoGeneratedMipmapsMax(u32),
}

/// Length of the full mipmap chain of the largest populated axis:
/// `floor(log2(max(width, height, depth))) + 1`.
pub open spec fn spec_full_chain(width: u32, height: Option<u32>, depth: Option<u32>) -> nat {
    1 + log2_floor(vstd::math::max(
        width as int,
        vstd::math::max(axis_or_1(height) as int, axis_or_1(depth) as int),
    ) as nat)
}

impl MipmapsOption {
    /// The number of levels this policy yields on the given shape: one for
    /// `NoMipmap`, the full chain for the automatic and empty-chain
    /// policies, and an explicit count clamped to at least one and at most
    /// the full chain otherwise.
    pub open spec fn spec_num_levels(
        self,
        width: u32,
        height: Option<u32>,
        depth: Option<u32>,
    ) -> nat {
        let full = spec_full_chain(width, height, depth);
        match self {
            MipmapsOption::NoMipmap => 1,
            MipmapsOption::EmptyMipmaps => full,
            MipmapsOption::AutoGeneratedMipmaps => full,
            MipmapsOption::EmptyMipmapsMax(n) => vstd::math::min(
                full as int,
                vstd::math::max(1, n as int),
            ) as nat,
            MipmapsOption::AutoGeneratedMipmapsMax(n) => vstd::math::min(
                full as int,
                vstd::math::max(1, n as int),
            ) as nat,
        }
    }

    /// Whether this policy asks for automatic mipmap regeneration.
    pub open spec fn spec_should_generate(self) -> bool {
        match self {
            MipmapsOption::AutoGeneratedMipmaps => true,
            MipmapsOption::AutoGeneratedMipmapsMax(_) => true,
            _ => false,
        }
    }

    /// Whether this policy asks for automatic mipmap regeneration.
    pub fn should_generate(&self) -> (r: bool)
        ensures
            r == self.spec_should_generate(),
    {
        match self {
            MipmapsOption::AutoGeneratedMipmaps => true,
            MipmapsOption::AutoGeneratedMipmapsMax(_) => true,
            _ => false,
        }
    }

    /// Number of mipmap levels to allocate for the given shape; at least
    /// one, and exactly `floor(log2(largest populated axis)) + 1` for the
    /// full-chain policies.
    pub fn num_levels(&self, width: u32, height: Option<u32>, depth: Option<u32>) -> (r: u32)
        ensures
            r == self.spec_num_levels(width, height, depth),
            r >= 1,
            r <= 32,
    {
        proof {
            lemma_log2_floor_u32_bound(
                vstd::math::max(
                    width as int,
                    vstd::math::max(axis_or_1(height) as int, axis_or_1(depth) as int),
                ) as nat,
            );
        }
        match self {
            MipmapsOption::NoMipmap => 1,
            MipmapsOption::EmptyMipmaps => full_chain(width, height, depth),
            MipmapsOption::AutoGeneratedMipmaps => full_chain(width, height, depth),
            MipmapsOption::EmptyMipmapsMax(n) => {
                let full: u32 = full_chain(width, height, depth);
                let wanted: u32 = if *n < 1 {
                    1
                } else {
                    *n
                };
                if wanted < full {
                    wanted
                } else {
                    full
                }
            },
            MipmapsOption::AutoGeneratedMipmapsMax(n) => {
                let full: u32 = full_chain(width, height, depth);
                let wanted: u32 = if *n < 1 {
                    1
                } else {
                    *n
                };
                if wanted < full {
                    wanted
                } else {
                    full
                }
            },
        }
    }
}

/// Computes the full mipmap chain length for the given shape.
fn full_chain(width: u32, height: Option<u32>, depth: Option<u32>) -> (r: u32)
    ensures
        r == spec_full_chain(width, height, depth),
        r >= 1,
{
    let h: u32 = height.unwrap_or(1);
    let d: u32 = depth.unwrap_or(1);
    let mut largest: u32 = width;
    if h > largest {
        largest = h;
    }
    if d > largest {
        largest = d;
    }
    proof {
        lemma_log2_floor_u32_bound(largest as nat);
    }
    let ghost total: nat = 1 + log2_floor(largest as nat);
    let mut m: u32 = largest;
    let mut levels: u32 = 1;
    while m > 1
        invariant
            levels + log2_floor(m as nat) == total,
            total <= 32,
        decreases m,
    {
        m = m / 2;
        levels = levels + 1;
    }
    levels
}

/// A concrete internal storage format, as the driver reports it.
#[derive(Copy, Clone, PartialEq, Eq, Structural, Debug)]
pub enum InternalFormat {
    /// Unsized four-channel colour; the driver picks the storage width.
    Rgba,
    Rgba8,
    Rgba16,
    Rgba32f,
    Srgb8Alpha8,
    /// Generic compressed colour; the driver picks the scheme, so the
    /// stored layout is not a recognized standard compressed format.
    CompressedRgba,
    /// Generic compressed sRGB colour; same caveat as `CompressedRgba`.
    CompressedSrgbAlpha,
    CompressedRgbS3tcDxt1,
    CompressedRgbaS3tcDxt1,
    CompressedRgbaS3tcDxt3,
    CompressedRgbaS3tcDxt5,
    CompressedSrgbS3tcDxt1,
    CompressedSrgbAlphaS3tcDxt1,
    CompressedSrgbAlphaS3tcDxt3,
    CompressedSrgbAlphaS3tcDxt5,
    Rgba32i,
    Rgba32ui,
    DepthComponent16,
    DepthComponent24,
    DepthComponent32f,
    StencilIndex8,
    Depth24Stencil8,
}

impl InternalFormat {
    /// Whether the format has a fixed storage layout, as preallocated
    /// immutable storage requires.
    pub open spec fn spec_is_sized(self) -> bool {
        match self {
            InternalFormat::Rgba => false,
            InternalFormat::CompressedRgba => false,
            InternalFormat::CompressedSrgbAlpha => false,
            _ => true,
        }
    }

    /// Whether the format has a fixed storage layout.
    pub fn is_sized(&self) -> (r: bool)
        ensures
            r == self.spec_is_sized(),
    {
        match self {
            InternalFormat::Rgba => false,
            InternalFormat::CompressedRgba => false,
            InternalFormat::CompressedSrgbAlpha => false,
            _ => true,
        }
    }

    /// Whether the stored data is compressed.
    pub open spec fn spec_is_compressed(self) -> bool {
        match self {
            InternalFormat::CompressedRgba => true,
            InternalFormat::CompressedSrgbAlpha => true,
            InternalFormat::CompressedRgbS3tcDxt1 => true,
            InternalFormat::CompressedRgbaS3tcDxt1 => true,
            InternalFormat::CompressedRgbaS3tcDxt3 => true,
            InternalFormat::CompressedRgbaS3tcDxt5 => true,
            InternalFormat::CompressedSrgbS3tcDxt1 => true,
            InternalFormat::CompressedSrgbAlphaS3tcDxt1 => true,
            InternalFormat::CompressedSrgbAlphaS3tcDxt3 => true,
            InternalFormat::CompressedSrgbAlphaS3tcDxt5 => true,
            _ => false,
        }
    }

    /// Whether the stored data is compressed.
    pub fn is_compressed(&self) -> (r: bool)
        ensures
            r == self.spec_is_compressed(),
    {
        match self {
            InternalFormat::CompressedRgba => true,
            InternalFormat::CompressedSrgbAlpha => true,
            InternalFormat::CompressedRgbS3tcDxt1 => true,
            InternalFormat::CompressedRgbaS3tcDxt1 => true,
            InternalFormat::CompressedRgbaS3tcDxt3 => true,
            InternalFormat::CompressedRgbaS3tcDxt5 => true,
            InternalFormat::CompressedSrgbS3tcDxt1 => true,
            InternalFormat::CompressedSrgbAlphaS3tcDxt1 => true,
            InternalFormat::CompressedSrgbAlphaS3tcDxt3 => true,
            InternalFormat::CompressedSrgbAlphaS3tcDxt5 => true,
            _ => false,
        }
    }

    /// The standard compressed payload format corresponding to this
    /// internal format, or `None` when the internal format is not a
    /// recognized standard compressed format (uncompressed, or a generic
    /// compression the driver chose).
    pub open spec fn spec_compressed_client_format(self) -> Option<ClientFormatAny> {
        match self {
            InternalFormat::CompressedRgbS3tcDxt1 => Some(
                ClientFormatAny::CompressedFormat(CompressedFormat::S3tcDxt1NoAlpha),
            ),
            InternalFormat::CompressedRgbaS3tcDxt1 => Some(
                ClientFormatAny::CompressedFormat(CompressedFormat::S3tcDxt1Alpha),
            ),
            InternalFormat::CompressedRgbaS3tcDxt3 => Some(
                ClientFormatAny::CompressedFormat(CompressedFormat::S3tcDxt3Alpha),
            ),
            InternalFormat::CompressedRgbaS3tcDxt5 => Some(
                ClientFormatAny::CompressedFormat(CompressedFormat::S3tcDxt5Alpha),
            ),
            InternalFormat::CompressedSrgbS3tcDxt1 => Some(
                ClientFormatAny::CompressedSrgbFormat(CompressedSrgbFormat::S3tcDxt1NoAlpha),
            ),
            InternalFormat::CompressedSrgbAlphaS3tcDxt1 => Some(
                ClientFormatAny::CompressedSrgbFormat(CompressedSrgbFormat::S3tcDxt1Alpha),
            ),
            InternalFormat::CompressedSrgbAlphaS3tcDxt3 => Some(
                ClientFormatAny::CompressedSrgbFormat(CompressedSrgbFormat::S3tcDxt3Alpha),
            ),
            InternalFormat::CompressedSrgbAlphaS3tcDxt5 => Some(
                ClientFormatAny::CompressedSrgbFormat(CompressedSrgbFormat::S3tcDxt5Alpha),
            ),
            _ => None,
        }
    }

    /// Recognizes the standard compressed payload format stored under this
    /// internal format.
    pub fn compressed_client_format(&self) -> (r: Option<ClientFormatAny>)
        ensures
            r == self.spec_compressed_client_format(),
    {
        match self {
            InternalFormat::CompressedRgbS3tcDxt1 => Some(
                ClientFormatAny::CompressedFormat(CompressedFormat::S3tcDxt1NoAlpha),
            ),
            InternalFormat::CompressedRgbaS3tcDxt1 => Some(
                ClientFormatAny::CompressedFormat(CompressedFormat::S3tcDxt1Alpha),
            ),
            InternalFormat::CompressedRgbaS3tcDxt3 => Some(
                ClientFormatAny::CompressedFormat(CompressedFormat::S3tcDxt3Alpha),
            ),
            InternalFormat::CompressedRgbaS3tcDxt5 => Some(
                ClientFormatAny::CompressedFormat(CompressedFormat::S3tcDxt5Alpha),
            ),
            InternalFormat::CompressedSrgbS3tcDxt1 => Some(
                ClientFormatAny::CompressedSrgbFormat(CompressedSrgbFormat::S3tcDxt1NoAlpha),
            ),
            InternalFormat::CompressedSrgbAlphaS3tcDxt1 => Some(
                ClientFormatAny::CompressedSrgbFormat(CompressedSrgbFormat::S3tcDxt1Alpha),
            ),
            InternalFormat::CompressedSrgbAlphaS3tcDxt3 => Some(
                ClientFormatAny::CompressedSrgbFormat(CompressedSrgbFormat::S3tcDxt3Alpha),
            ),
            InternalFormat::CompressedSrgbAlphaS3tcDxt5 => Some(
                ClientFormatAny::CompressedSrgbFormat(CompressedSrgbFormat::S3tcDxt5Alpha),
            ),
            _ => None,
        }
    }
}

/// A concrete uncompressed floating-point colour format.
#[derive(Copy, Clone, PartialEq, Eq, Structural, Debug)]
pub enum UncompressedFloatFormat {
    U8U8U8U8,
    U16U16U16U16,
    F32F32F32F32,
}

/// A concrete sRGB colour format.
#[derive(Copy, Clone, PartialEq, Eq, Structural, Debug)]
pub enum SrgbFormat {
    Srgb8Alpha8,
}

/// A concrete signed integral colour format.
#[derive(Copy, Clone, PartialEq, Eq, Structural, Debug)]
pub enum UncompressedIntFormat {
    I32I32I32I32,
}

/// A concrete unsigned integral colour format.
#[derive(Copy, Clone, PartialEq, Eq, Structural, Debug)]
pub enum UncompressedUintFormat {
    U32U32U32U32,
}

/// A concrete depth format.
#[derive(Copy, Clone, PartialEq, Eq, Structural, Debug)]
pub enum DepthFormat {
    I16,
    I24,
    F32,
}

/// A concrete stencil format.
#[derive(Copy, Clone, PartialEq, Eq, Structural, Debug)]
pub enum StencilFormat {
    I8,
}

/// A concrete combined depth + stencil format.
#[derive(Copy, Clone, PartialEq, Eq, Structural, Debug)]
pub enum DepthStencilFormat {
    I24I8,
}

/// A specific concrete texture format, tagged with its logical kind.
#[derive(Copy, Clone, PartialEq, Eq, Structural, Debug)]
pub enum TextureFormat {
    UncompressedFloat(UncompressedFloatFormat),
    CompressedFormat(CompressedFormat),
    Srgb(SrgbFormat),
    CompressedSrgbFormat(CompressedSrgbFormat),
    UncompressedIntegral(UncompressedIntFormat),
    UncompressedUnsigned(UncompressedUintFormat),
    DepthFormat(DepthFormat),
    StencilFormat(StencilFormat),
    DepthStencilFormat(DepthStencilFormat),
}

/// A logical format request: either a wildcard over one of the nine format
/// kinds, resolved against the capability snapshot, or a specific concrete
/// format validated against it.
#[derive(Copy, Clone, PartialEq, Eq, Structural, Debug)]
pub enum TextureFormatRequest {
    AnyFloatingPoint,
    AnyCompressed,
    AnySrgb,
    AnyCompressedSrgb,
    AnyIntegral,
    AnyUnsigned,
    AnyDepth,
    AnyStencil,
    AnyDepthStencil,
    Specific(TextureFormat),
}

/// The layout half of a client transfer encoding.
#[derive(Copy, Clone, PartialEq, Eq, Structural, Debug)]
pub enum TransferFormat {
    Red,
    Rg,
    Rgb,
    Rgba,
    RedInteger,
    RgInteger,
    RgbInteger,
    RgbaInteger,
    DepthComponent,
    DepthStencil,
    StencilIndex,
}

/// The component-type half of a client transfer encoding.
#[derive(Copy, Clone, PartialEq, Eq, Structural, Debug)]
pub enum TransferType {
    U8,
    U16,
    U32,
    F32,
    UnsignedInt24_8,
}

/// The transfer encoding of caller-supplied uncompressed pixel data.
#[derive(Copy, Clone, PartialEq, Eq, Structural, Debug)]
pub struct TransferParams {
    pub format: TransferFormat,
    pub ty: TransferType,
}

/// The channel count of an uncompressed client format.
pub open spec fn spec_channels(cf: ClientFormat) -> nat {
    match cf {
        ClientFormat::U8 => 1,
        ClientFormat::U8U8 => 2,
        ClientFormat::U8U8U8 => 3,
        ClientFormat::U8U8U8U8 => 4,
        ClientFormat::U16 => 1,
        ClientFormat::U16U16 => 2,
        ClientFormat::U16U16U16U16 => 4,
        ClientFormat::U32 => 1,
        ClientFormat::U32U32U32U32 => 4,
        ClientFormat::F32 => 1,
        ClientFormat::F32F32F32F32 => 4,
    }
}

/// The channel count of an uncompressed client format.
pub fn channels(cf: ClientFormat) -> (r: u32)
    ensures
        r == spec_channels(cf),
{
    match cf {
        ClientFormat::U8 => 1,
        ClientFormat::U8U8 => 2,
        ClientFormat::U8U8U8 => 3,
        ClientFormat::U8U8U8U8 => 4,
        ClientFormat::U16 => 1,
        ClientFormat::U16U16 => 2,
        ClientFormat::U16U16U16U16 => 4,
        ClientFormat::U32 => 1,
        ClientFormat::U32U32U32U32 => 4,
        ClientFormat::F32 => 1,
        ClientFormat::F32F32F32F32 => 4,
    }
}

/// The width of one component of an uncompressed client format, in
/// bytes.
pub open spec fn spec_component_width(cf: ClientFormat) -> nat {
    match cf {
        ClientFormat::U8 => 1,
        ClientFormat::U8U8 => 1,
        ClientFormat::U8U8U8 => 1,
        ClientFormat::U8U8U8U8 => 1,
        ClientFormat::U16 => 2,
        ClientFormat::U16U16 => 2,
        ClientFormat::U16U16U16U16 => 2,
        ClientFormat::U32 => 4,
        ClientFormat::U32U32U32U32 => 4,
        ClientFormat::F32 => 4,
        ClientFormat::F32F32F32F32 => 4,
    }
}

/// The width of one component of an uncompressed client format, in
/// bytes.
pub fn component_width(cf: ClientFormat) -> (r: usize)
    ensures
        r == spec_component_width(cf),
{
    match cf {
        ClientFormat::U8 => 1,
        ClientFormat::U8U8 => 1,
        ClientFormat::U8U8U8 => 1,
        ClientFormat::U8U8U8U8 => 1,
        ClientFormat::U16 => 2,
        ClientFormat::U16U16 => 2,
        ClientFormat::U16U16U16U16 => 2,
        ClientFormat::U32 => 4,
        ClientFormat::U32U32U32U32 => 4,
        ClientFormat::F32 => 4,
        ClientFormat::F32F32F32F32 => 4,
    }
}

/// Whether the model can convert an encoding to the four-channel
/// eight-bit layout: every integer-component encoding; floating-point
/// components are not modelled.
pub open spec fn spec_normalizable(cf: ClientFormat) -> bool {
    !(cf == ClientFormat::F32 || cf == ClientFormat::F32F32F32F32)
}

/// Integer-component pixels converted to four channels of eight bits:
/// each component keeps its high-order byte (components lie
/// little-endian in client memory), missing colour channels read zero
/// and a missing alpha channel reads full.
pub open spec fn spec_rgba8_normalized(cf: ClientFormat, b: Seq<u8>) -> Seq<u8>
    recommends
        spec_normalizable(cf),
{
    Seq::new(
        ((b.len() as int / (cf.spec_size() as int)) * 4) as nat,
        |i: int|
            {
                let p = i / 4;
                let k = i % 4;
                let ch = spec_channels(cf) as int;
                let cw = spec_component_width(cf) as int;
                if k < ch {
                    b[p * (cf.spec_size() as int) + k * cw + (cw - 1)]
                } else if k == 3 {
                    255u8
                } else {
                    0u8
                }
            },
    )
}

/// The normalized form of an uncompressed payload, or `None` where the
/// model cannot hold one: floating-point components, a byte length that
/// is no whole number of pixels, or a normalized size beyond the
/// machine's limit.
pub open spec fn spec_normalized_or_none(cf: ClientFormat, b: Seq<u8>) -> Option<Seq<u8>> {
    if spec_normalizable(cf) && b.len() % cf.spec_size() == 0 && (b.len() as int / (
    cf.spec_size() as int)) * 4 <= usize::MAX {
        Some(spec_rgba8_normalized(cf, b))
    } else {
        None
    }
}

/// Converts an uncompressed payload to the four-channel eight-bit
/// encoding, per `spec_normalized_or_none`.
pub fn normalize_rgba8(cf: ClientFormat, b: &Vec<u8>) -> (r: Option<Vec<u8>>)
    ensures
        (r matches Some(v) ==> Some(v@) == spec_normalized_or_none(cf, b@)),
        (r is None ==> spec_normalized_or_none(cf, b@) is None),
{
    let normalizable: bool = !(matches!(cf, ClientFormat::F32) || matches!(
        cf,
        ClientFormat::F32F32F32F32,
    ));
    if !normalizable {
        return None;
    }
    let size: usize = cf.get_size();
    if b.len() % size != 0 {
        return None;
    }
    let pixels: usize = b.len() / size;
    if pixels > usize::MAX / 4 {
        proof {
            assert(!(pixels * 4 <= usize::MAX)) by (nonlinear_arith)
                requires
                    pixels > usize::MAX / 4,
            ;
        }
        return None;
    }
    proof {
        assert(pixels * 4 <= usize::MAX) by (nonlinear_arith)
            requires
                pixels <= usize::MAX / 4,
        ;
    }
    let ch: u32 = channels(cf);
    let cw: usize = component_width(cf);
    let ghost goal: Seq<u8> = spec_rgba8_normalized(cf, b@);
    proof {
        assert(goal.len() == pixels * 4);
    }
    let total_len: usize = b.len();
    let mut out: Vec<u8> = Vec::new();
    let mut p: usize = 0;
    while p < pixels
        invariant
            p <= pixels,
            b@.len() == total_len,
            size == cf.spec_size(),
            size >= 1,
            ch == spec_channels(cf),
            cw == spec_component_width(cf),
            cw >= 1,
            ch >= 1,
            ch as nat * cw as nat == size as nat,
            spec_normalizable(cf),
            pixels == b@.len() as int / (size as int),
            b@.len() as int % (size as int) == 0,
            pixels * 4 <= usize::MAX,
            goal == spec_rgba8_normalized(cf, b@),
            goal.len() == pixels * 4,
            out@.len() == p * 4,
            forall|i: int| 0 <= i < p * 4 ==> (#[trigger] out@[i]) == goal[i],
        decreases pixels - p,
    {
        proof {
            assert(p * size + size <= b@.len() && (p + 1) * 4 <= pixels * 4 && p * 4 + 4 == (p + 1)
                * 4) by (nonlinear_arith)
                requires
                    p < pixels,
                    size >= 1,
                    pixels == b@.len() as int / (size as int),
                    b@.len() as int % (size as int) == 0,
            ;
        }
        let base_idx: usize = p * size;
        let mut k: usize = 0;
        while k < 4
            invariant
                k <= 4,
                b@.len() == total_len,
                size == cf.spec_size(),
                ch == spec_channels(cf),
                cw == spec_component_width(cf),
                cw >= 1,
                ch >= 1,
                ch as nat * cw as nat == size as nat,
                base_idx == p * size,
                p < pixels,
                base_idx + size <= b@.len(),
                goal == spec_rgba8_normalized(cf, b@),
                goal.len() == pixels * 4,
                (p + 1) * 4 <= pixels * 4,
                p * 4 + 4 == (p + 1) * 4,
                out@.len() == p * 4 + k,
                forall|i: int| 0 <= i < p * 4 ==> (#[trigger] out@[i]) == goal[i],
                forall|i: int|
                    p * 4 <= i < p * 4 + k ==> (#[trigger] out@[i]) == goal[i],
            decreases 4 - k,
        {
            let byte: u8 = if k < ch as usize {
                proof {
                    assert(k * cw + (cw - 1) < size) by (nonlinear_arith)
                        requires
                            k < ch,
                            cw >= 1,
                            ch as nat * cw as nat == size as nat,
                    ;
                }
                b[base_idx + k * cw + (cw - 1)]
            } else if k == 3 {
                255
            } else {
                0
            };
            out.push(byte);
            proof {
                let i = p * 4 + k;
                assert(i / 4 == p && i % 4 == k) by (nonlinear_arith)
                    requires
                        0 <= k < 4,
                        i == p * 4 + k,
                ;
                assert(out@[i as int] == goal[i as int]);
            }
            k = k + 1;
        }
        p = p + 1;
    }
    proof {
        assert(out@ =~= goal);
    }
    Some(out)
}

/// Normalizing four-channel eight-bit pixels is the identity.
pub proof fn lemma_rgba8_normalize_identity(data: Seq<u8>)
    requires
        data.len() % 4 == 0,
    ensures
        spec_rgba8_normalized(ClientFormat::U8U8U8U8, data) == data,
{
    let normalized = spec_rgba8_normalized(ClientFormat::U8U8U8U8, data);
    assert((data.len() / 4) * 4 == data.len()) by (nonlinear_arith)
        requires
            data.len() % 4 == 0,
    ;
    assert forall|i: int| 0 <= i < data.len() implies normalized[i] == data[i] by {
        assert((i / 4) * 4 + i % 4 == i) by (nonlinear_arith);
    }
    assert(normalized =~= data);
}

} // verus!
