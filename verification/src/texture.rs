//! The texture resource: an owned driver handle with immutable shape
//! metadata, and non-owning mipmap/layer views with derived per-level
//! sizes.

use vstd::prelude::*;

use crate::context::{CapabilitySnapshot, Context, GlCommand, GlState, TextureStore};
use crate::error::{TextureCreationError, TextureMaybeSupportedCreationError};
use crate::format::{
    axis_or_1, ClientFormat, ClientFormatAny, InternalFormat, MipmapsOption, TextureFormatRequest,
};
use crate::negotiate::{negotiate, spec_negotiate, NegotiatedFormat};
use crate::version::Api;

verus! {

/// Dimensionality of a texture, which also names its binding target.
#[derive(Copy, Clone, PartialEq, Eq, Structural, Debug)]
pub enum TextureType {
    Texture1d,
    Texture1dArray,
    Texture2d,
    Texture2dArray,
    Texture2dMultisample,
    Texture2dMultisampleArray,
    Texture3d,
}

/// A texture whose dimensionality and format kind are not fixed at
/// compile time.
///
/// The shape metadata is immutable after creation: exactly the axes that
/// apply to the dimensionality are populated, and `levels` is at least
/// one. The driver-side resource itself lives in the context the
/// texture was created on.
#[derive(Debug)]
pub struct TextureAny {
    pub id: u32,
    pub requested_format: TextureFormatRequest,
    /// The concrete internal format negotiation chose at creation.
    pub internal_format: InternalFormat,
    /// Cache for the driver-reported actual format: `None` until first
    /// queried, then fixed; the inner option is `None` when the driver
    /// cannot report the format.
    pub actual_format: Option<Option<InternalFormat>>,
    pub ty: TextureType,
    pub width: u32,
    pub height: Option<u32>,
    pub depth: Option<u32>,
    pub array_size: Option<u32>,
    /// Number of mipmap levels; `1` means just the main level.
    pub levels: u32,
    /// Whether automatic mipmap regeneration was requested.
    pub generate_mipmaps: bool,
}

/// A specific mipmap level (and layer, for array textures) of a texture:
/// a non-owning view with the level's derived shape.
#[derive(Copy, Clone, Debug)]
pub struct TextureAnyMipmap<'a> {
    /// The texture.
    pub texture: &'a TextureAny,
    /// Layer for array textures, or 0 for other textures.
    pub layer: u32,
    /// Mipmap level.
    pub level: u32,
    /// Width of this mipmap level.
    pub width: u32,
    /// Height of this mipmap level.
    pub height: Option<u32>,
    /// Depth of this mipmap level.
    pub depth: Option<u32>,
}

/// Whether exactly the axes that apply to one of the seven
/// dimensionalities are populated.
pub open spec fn valid_shape(
    height: Option<u32>,
    depth: Option<u32>,
    array_size: Option<u32>,
    samples: Option<u32>,
) -> bool {
    if height is None {
        depth is None && samples is None
    } else if depth is Some {
        samples is None && array_size is None
    } else {
        true
    }
}

/// The dimensionality encoded by a populated-axis combination.
pub open spec fn spec_texture_type(
    height: Option<u32>,
    depth: Option<u32>,
    array_size: Option<u32>,
    samples: Option<u32>,
) -> TextureType {
    if height is None {
        if array_size is None {
            TextureType::Texture1d
        } else {
            TextureType::Texture1dArray
        }
    } else if depth is None {
        match (array_size is Some, samples is Some) {
            (false, false) => TextureType::Texture2d,
            (true, false) => TextureType::Texture2dArray,
            (false, true) => TextureType::Texture2dMultisample,
            (true, true) => TextureType::Texture2dMultisampleArray,
        }
    } else {
        TextureType::Texture3d
    }
}

/// Extent of one axis at a mipmap level: halved per level, never below
/// one.
pub open spec fn level_extent(extent: u32, level: u32) -> nat {
    vstd::math::max(
        1,
        (extent as nat / vstd::arithmetic::power2::pow2(level as nat)) as int,
    ) as nat
}

impl TextureAny {
    /// Shape metadata is consistent: the populated axes match the
    /// dimensionality and there is at least one level.
    pub open spec fn wf(self) -> bool {
        &&& self.levels >= 1
        &&& self.levels <= 32
        &&& valid_shape(self.height, self.depth, self.array_size, None)
            || valid_shape(self.height, self.depth, self.array_size, Some(0u32))
        &&& self.ty == spec_texture_type(
            self.height,
            self.depth,
            self.array_size,
            if self.ty is Texture2dMultisample || self.ty is Texture2dMultisampleArray {
                Some(0u32)
            } else {
                None
            },
        )
    }

    /// Returns the width of the texture.
    pub fn get_width(&self) -> (r: u32)
        ensures
            r == self.width,
    {
        self.width
    }

    /// Returns the height of the texture.
    pub fn get_height(&self) -> (r: Option<u32>)
        ensures
            r == self.height,
    {
        self.height
    }

    /// Returns the depth of the texture.
    pub fn get_depth(&self) -> (r: Option<u32>)
        ensures
            r == self.depth,
    {
        self.depth
    }

    /// Returns the array size of the texture.
    pub fn get_array_size(&self) -> (r: Option<u32>)
        ensures
            r == self.array_size,
    {
        self.array_size
    }

    /// Returns the number of mipmap levels of the texture.
    pub fn get_mipmap_levels(&self) -> (r: u32)
        ensures
            r == self.levels,
    {
        self.levels
    }

    /// Returns the type of the texture (1D, 2D, 3D, etc.).
    pub fn get_texture_type(&self) -> (r: TextureType)
        ensures
            r == self.ty,
    {
        self.ty
    }

    /// Returns the driver handle of the texture.
    pub fn get_id(&self) -> (r: u32)
        ensures
            r == self.id,
    {
        self.id
    }

    /// Returns a view of a specific mipmap of the texture, with the
    /// level's derived shape (each axis halved per level, never below
    /// one), or `None` when the layer or level is out of range.
    pub fn mipmap(&self, layer: u32, level: u32) -> (r: Option<TextureAnyMipmap<'_>>)
        requires
            self.wf(),
        ensures
            r is Some <==> (layer < axis_or_1(self.array_size) && level < self.levels),
            r matches Some(m) ==> {
                &&& m.texture == self
                &&& m.layer == layer
                &&& m.level == level
                &&& m.width == level_extent(self.width, level)
                &&& (m.height matches Some(h) <==> self.height is Some)
                &&& (m.height matches Some(h) ==> h == level_extent(self.height->0, level))
                &&& (m.depth matches Some(d) <==> self.depth is Some)
                &&& (m.depth matches Some(d) ==> d == level_extent(self.depth->0, level))
            },
    {
        if layer >= self.array_size.unwrap_or(1) {
            return None;
        }
        if level >= self.levels {
            return None;
        }
        let width: u32 = shrink_extent(self.width, level);
        let height: Option<u32> = match self.height {
            Some(h) => Some(shrink_extent(h, level)),
            None => None,
        };
        let depth: Option<u32> = match self.depth {
            Some(d) => Some(shrink_extent(d, level)),
            None => None,
        };
        Some(
            TextureAnyMipmap {
                texture: self,
                layer,
                level,
                width,
                height,
                depth,
            },
        )
    }
}

impl TextureAny {
    /// Returns the view of the base mipmap level on layer zero, which
    /// the level-count invariant keeps present.
    pub fn main_level(&self) -> (r: TextureAnyMipmap<'_>)
        requires
            self.wf(),
            axis_or_1(self.array_size) > 0,
        ensures
            r.texture == self,
            r.layer == 0,
            r.level == 0,
            r.wf(),
    {
        self.mipmap(0, 0).unwrap()
    }
}

/// Computes one axis of a mipmap level: halved per level, never below one.
fn shrink_extent(extent: u32, level: u32) -> (r: u32)
    requires
        level <= 32,
    ensures
        r == level_extent(extent, level),
{
    let mut remaining: u32 = level;
    let mut e: u32 = extent;
    proof {
        vstd::arithmetic::power2::lemma2_to64();
        assert(extent as nat / vstd::arithmetic::power2::pow2(0) == extent);
    }
    while remaining > 0
        invariant
            e == extent as nat / vstd::arithmetic::power2::pow2((level - remaining) as nat),
            remaining <= level,
            level <= 32,
        decreases remaining,
    {
        proof {
            let k = (level - remaining) as nat;
            vstd::arithmetic::power2::lemma_pow2_unfold(k + 1);
            vstd::arithmetic::power2::lemma_pow2_pos(k);
            vstd::arithmetic::div_mod::lemma_div_denominator(
                extent as int,
                vstd::arithmetic::power2::pow2(k) as int,
                2,
            );
            assert(vstd::arithmetic::power2::pow2(k + 1) == vstd::arithmetic::power2::pow2(k)
                * 2);
        }
        e = e / 2;
        remaining = remaining - 1;
    }
    if e == 0 {
        1
    } else {
        e
    }
}

impl<'a> TextureAnyMipmap<'a> {
    /// The view is consistent with its texture: indices in range and the
    /// derived shape as `TextureAny::mipmap` computes it.
    pub open spec fn wf(self) -> bool {
        &&& self.texture.wf()
        &&& self.layer < axis_or_1(self.texture.array_size)
        &&& self.level < self.texture.levels
        &&& self.width == level_extent(self.texture.width, self.level)
        &&& (self.height matches Some(h) <==> self.texture.height is Some)
        &&& (self.height matches Some(h) ==> h == level_extent(self.texture.height->0, self.level))
        &&& (self.depth matches Some(d) <==> self.texture.depth is Some)
        &&& (self.depth matches Some(d) ==> d == level_extent(self.texture.depth->0, self.level))
    }

    /// Returns the texture.
    pub fn get_texture(&self) -> (r: &'a TextureAny)
        ensures
            r == self.texture,
    {
        self.texture
    }

    /// Returns the level of the texture.
    pub fn get_level(&self) -> (r: u32)
        ensures
            r == self.level,
    {
        self.level
    }

    /// Returns the layer of the texture.
    pub fn get_layer(&self) -> (r: u32)
        ensures
            r == self.layer,
    {
        self.layer
    }
}

/// The format the driver reports for a texture, where the snapshot
/// allows the query at all.
pub open spec fn spec_reported_format(caps: CapabilitySnapshot, tex: TextureAny) -> Option<
    InternalFormat,
> {
    if caps.spec_format_query_supported() {
        Some(tex.internal_format)
    } else {
        None
    }
}

impl TextureAny {
    /// Determines the internal format of this texture.
    ///
    /// Returns `None` if the backend doesn't allow querying the actual
    /// format. The answer is computed on the first call and cached: the
    /// cache is written exactly once and every later call returns the
    /// cached value unchanged.
    pub fn get_internal_format_if_supported(&mut self, ctxt: &Context) -> (r: Option<
        InternalFormat,
    >)
        ensures
            old(self).actual_format matches Some(cached) ==> r == cached && *final(self) == *old(self),
            old(self).actual_format is None ==> r == spec_reported_format(ctxt.caps, *old(self))
                && *final(self) == (TextureAny { actual_format: Some(r), ..*old(self) }),
    {
        match self.actual_format {
            Some(cached) => cached,
            None => {
                let reported: Option<InternalFormat> = if ctxt.caps.format_query_supported() {
                    Some(self.internal_format)
                } else {
                    None
                };
                self.actual_format = Some(reported);
                reported
            },
        }
    }

    /// Destroys the texture: asks the framebuffer collaborator to drop
    /// every cached framebuffer object referencing the handle, clears
    /// every texture-unit binding-cache slot still pointing at it,
    /// releases the driver-resident storage and deletes the handle.
    pub fn destroy(self, ctxt: &mut Context)
        requires
            old(ctxt).wf(),
        ensures
            final(ctxt).wf(),
            final(ctxt).caps == old(ctxt).caps,
            final(ctxt).next_texture_id == old(ctxt).next_texture_id,
            final(ctxt).next_buffer_id == old(ctxt).next_buffer_id,
            final(ctxt).state.unpack_alignment == old(ctxt).state.unpack_alignment,
            final(ctxt).state.pack_alignment == old(ctxt).state.pack_alignment,
            final(ctxt).state.pixel_unpack_buffer == old(ctxt).state.pixel_unpack_buffer,
            final(ctxt).state.pixel_pack_buffer == old(ctxt).state.pixel_pack_buffer,
            final(ctxt).state.active_texture == old(ctxt).state.active_texture,
            // every binding-cache slot that held the handle is cleared
            final(ctxt).state.texture_units@.len() == old(ctxt).state.texture_units@.len(),
            forall|i: int|
                0 <= i < old(ctxt).state.texture_units@.len() ==> final(ctxt).state.texture_units@[i] == (if old(ctxt).state.texture_units@[i] == self.id {
                    0u32
                } else {
                    old(ctxt).state.texture_units@[i]
                }),
            // no cached framebuffer object references the handle any more,
            // and entries of other handles survive
            forall|i: int|
                0 <= i < final(ctxt).fbo_cache@.len() ==> (#[trigger] final(ctxt).fbo_cache@[i])
                    != self.id,
            forall|t: u32|
                t != self.id ==> (final(ctxt).fbo_cache@.contains(t) <==> old(ctxt).fbo_cache@.contains(t)),
            // the driver-resident storage of the handle is gone; others stay
            !final(ctxt).spec_has_texture(self.id),
            forall|t: u32|
                t != self.id ==> (final(ctxt).spec_has_texture(t) <==> old(ctxt).spec_has_texture(t)),
            forall|t: u32|
                t != self.id && old(ctxt).spec_has_texture(t) ==> final(ctxt).spec_texture(t)
                    == old(ctxt).spec_texture(t),
            final(ctxt).issued@ == old(ctxt).issued@ + seq![
                GlCommand::PurgeFramebuffers(self.id),
                GlCommand::DeleteTexture(self.id),
            ],
    {
        let id: u32 = self.id;

        // surviving framebuffer-cache entries: everything but this handle
        let mut kept: Vec<u32> = Vec::new();
        let mut i: usize = 0;
        while i < ctxt.fbo_cache.len()
            invariant
                i <= ctxt.fbo_cache@.len(),
                forall|j: int| 0 <= j < kept@.len() ==> (#[trigger] kept@[j]) != id,
                forall|t: u32|
                    t != id ==> (kept@.contains(t) <==> ctxt.fbo_cache@.subrange(
                        0,
                        i as int,
                    ).contains(t)),
            decreases ctxt.fbo_cache@.len() - i,
        {
            let entry: u32 = ctxt.fbo_cache[i];
            let ghost prefix: Seq<u32> = ctxt.fbo_cache@.subrange(0, i as int);
            let ghost kept0: Seq<u32> = kept@;
            if entry != id {
                kept.push(entry);
            }
            proof {
                let pp = prefix.push(entry);
                assert(ctxt.fbo_cache@.subrange(0, i as int + 1) =~= pp);
                assert forall|t: u32|
                    t != id implies (kept@.contains(t) <==> pp.contains(t)) by {
                    if kept@.contains(t) {
                        let j = choose|j: int| 0 <= j < kept@.len() && kept@[j] == t;
                        if j < kept0.len() {
                            assert(kept0[j] == t);
                            assert(kept0.contains(t));
                            assert(prefix.contains(t));
                            let j2 = choose|j2: int| 0 <= j2 < prefix.len() && prefix[j2] == t;
                            assert(pp[j2] == t);
                        } else {
                            assert(kept@[j] == entry);
                            assert(pp[pp.len() - 1] == t);
                        }
                        assert(pp.contains(t));
                    }
                    if pp.contains(t) {
                        let j = choose|j: int| 0 <= j < pp.len() && pp[j] == t;
                        if j < prefix.len() {
                            assert(prefix[j] == t);
                            assert(prefix.contains(t));
                            assert(kept0.contains(t));
                            let j2 = choose|j2: int| 0 <= j2 < kept0.len() && kept0[j2] == t;
                            assert(kept0[j2] == t);
                            assert(kept@[j2] == t);
                        } else {
                            assert(entry == t);
                            assert(kept@[kept@.len() - 1] == t);
                        }
                        assert(kept@.contains(t));
                    }
                }
            }
            i = i + 1;
        }
        proof {
            assert(ctxt.fbo_cache@.subrange(0, ctxt.fbo_cache@.len() as int) =~= ctxt.fbo_cache@);
        }

        // surviving binding-cache slots: this handle cleared to zero
        let mut new_units: Vec<u32> = Vec::new();
        let mut u: usize = 0;
        while u < ctxt.state.texture_units.len()
            invariant
                u <= ctxt.state.texture_units@.len(),
                new_units@.len() == u,
                forall|j: int|
                    0 <= j < u ==> new_units@[j] == (if ctxt.state.texture_units@[j] == id {
                        0u32
                    } else {
                        ctxt.state.texture_units@[j]
                    }),
            decreases ctxt.state.texture_units@.len() - u,
        {
            let slot: u32 = ctxt.state.texture_units[u];
            if slot == id {
                new_units.push(0);
            } else {
                new_units.push(slot);
            }
            u = u + 1;
        }

        let found: Option<usize> = ctxt.find_texture(id);

        // apply the invalidations, then delete the handle
        ctxt.issued.push(GlCommand::PurgeFramebuffers(id));
        ctxt.fbo_cache = kept;
        ctxt.state.texture_units = new_units;
        match found {
            Some(idx) => {
                let ghost old_seq: Seq<TextureStore> = ctxt.textures@;
                ctxt.textures.remove(idx);
                proof {
                    let idxi = idx as int;
                    let new_seq = ctxt.textures@;
                    assert(new_seq == old_seq.remove(idxi));
                    assert forall|j: int|
                        0 <= j < new_seq.len() implies new_seq[j] == (if j < idxi {
                        old_seq[j]
                    } else {
                        old_seq[j + 1]
                    }) by {
                        if j < idxi {
                            assert(new_seq[j] == old_seq.subrange(0, idxi)[j]);
                        } else {
                            assert(new_seq[j] == old_seq.subrange(
                                idxi + 1,
                                old_seq.len() as int,
                            )[j - idxi]);
                        }
                    }
                    assert forall|t: u32|
                        t != id && old(ctxt).spec_has_texture(t) implies ctxt.spec_has_texture(t)
                        && ctxt.spec_texture(t) == old(ctxt).spec_texture(t) by {
                        let j0 = old(ctxt).spec_texture_index(t);
                        assert(old_seq[j0].id == t);
                        assert(j0 != idxi) by {
                            assert(old_seq[idxi].id == id);
                        }
                        let nj = if j0 < idxi {
                            j0
                        } else {
                            j0 - 1
                        };
                        assert(new_seq[nj] == old_seq[j0]);
                        assert(ctxt.spec_has_texture(t));
                        let k = ctxt.spec_texture_index(t);
                        let ok = if k < idxi {
                            k
                        } else {
                            k + 1
                        };
                        assert(new_seq[k] == old_seq[ok]);
                        assert(old_seq[ok].id == t && old_seq[j0].id == t);
                        assert(ok == j0);
                    }
                    assert forall|t: u32| ctxt.spec_has_texture(t) implies old(
                        ctxt,
                    ).spec_has_texture(t) by {
                        let k = ctxt.spec_texture_index(t);
                        let ok = if k < idxi {
                            k
                        } else {
                            k + 1
                        };
                        assert(old_seq[ok] == new_seq[k]);
                    }
                    assert(!ctxt.spec_has_texture(id)) by {
                        if ctxt.spec_has_texture(id) {
                            let k = ctxt.spec_texture_index(id);
                            let ok = if k < idxi {
                                k
                            } else {
                                k + 1
                            };
                            assert(new_seq[k].id == id);
                            assert(old_seq[ok].id == id && old_seq[idxi].id == id && ok != idxi);
                        }
                    }
                }
            },
            None => {
                proof {
                    assert forall|t: u32|
                        t != id && old(ctxt).spec_has_texture(t) implies ctxt.spec_has_texture(t)
                        && ctxt.spec_texture(t) == old(ctxt).spec_texture(t) by {}
                }
            },
        }
        ctxt.issued.push(GlCommand::DeleteTexture(id));

        proof {
            assert(ctxt.issued@ =~= old(ctxt).issued@ + seq![
                GlCommand::PurgeFramebuffers(id),
                GlCommand::DeleteTexture(id),
            ]);
        }
    }
}

/// Returns the bind point of this texture: its dimensionality names the
/// binding target, which the context is guaranteed to support.
pub fn get_bind_point(tex: &TextureAny) -> (r: TextureType)
    ensures
        r == tex.ty,
{
    tex.ty
}

/// Whether a number is a power of two.
pub open spec fn spec_is_pow2(n: nat) -> bool
    decreases n,
{
    if n == 0 {
        false
    } else if n == 1 {
        true
    } else if n % 2 == 1 {
        false
    } else {
        spec_is_pow2(n / 2)
    }
}

/// Tests whether a number is a power of two.
fn is_pow2(n: u32) -> (r: bool)
    ensures
        r == spec_is_pow2(n as nat),
{
    if n == 0 {
        return false;
    }
    let mut m: u32 = n;
    while m > 1
        invariant
            m >= 1,
            spec_is_pow2(n as nat) == spec_is_pow2(m as nat),
        decreases m,
    {
        if m % 2 == 1 {
            return false;
        }
        m = m / 2;
    }
    true
}

/// A populated axis passes the power-of-two restriction; absent axes
/// pass.
pub open spec fn spec_axis_pow2(axis: Option<u32>) -> bool {
    match axis {
        Some(v) => spec_is_pow2(v as nat),
        None => true,
    }
}

/// The shape passes the driver's dimension restrictions: on legacy
/// hardware every populated axis must be a power of two.
pub open spec fn spec_dims_ok(
    caps: CapabilitySnapshot,
    width: u32,
    height: Option<u32>,
    depth: Option<u32>,
    array_size: Option<u32>,
) -> bool {
    !caps.spec_npot_restricted() || (spec_is_pow2(width as nat) && spec_axis_pow2(height)
        && spec_axis_pow2(depth) && spec_axis_pow2(array_size))
}

/// The first populated of two axes, as an option.
pub open spec fn spec_or(first: Option<u32>, second: Option<u32>) -> Option<u32> {
    if first is Some {
        first
    } else {
        second
    }
}

/// The extent of an optional axis, one when absent.
pub open spec fn spec_or1(axis: Option<u32>) -> u32 {
    match axis {
        Some(v) => v,
        None => 1,
    }
}

/// The extent of an optional axis, zero when absent.
pub open spec fn spec_or0(axis: Option<u32>) -> u32 {
    match axis {
        Some(v) => v,
        None => 0,
    }
}

/// One substituted for a zero extent in an allocation call.
pub open spec fn spec_sub1(extent: u32) -> u32 {
    if extent == 0 {
        1
    } else {
        extent
    }
}

/// Some populated axis is zero: the resource is allocated with extent
/// one instead and any data upload is suppressed.
pub open spec fn spec_zero_axis(
    width: u32,
    height: Option<u32>,
    depth: Option<u32>,
    array_size: Option<u32>,
) -> bool {
    width == 0 || spec_or1(height) == 0 || spec_or1(depth) == 0 || spec_or1(array_size) == 0
}

/// The client encoding of an optional data payload.
pub open spec fn spec_client_of(data: Option<(ClientFormatAny, Vec<u8>)>) -> Option<
    ClientFormatAny,
> {
    match data {
        Some(p) => Some(p.0),
        None => None,
    }
}

/// The bytes of an optional data payload, empty when absent.
pub open spec fn spec_data_bytes(data: Option<(ClientFormatAny, Vec<u8>)>) -> Seq<u8> {
    match data {
        Some(p) => p.1@,
        None => Seq::empty(),
    }
}

/// Number of width-by-height planes at the base level: the depth of a
/// three-dimensional texture, the layer count of a two-dimensional
/// array, one otherwise.
pub open spec fn spec_planes(
    height: Option<u32>,
    depth: Option<u32>,
    array_size: Option<u32>,
) -> u32 {
    if depth is Some {
        depth->0
    } else if height is Some && array_size is Some {
        array_size->0
    } else {
        1
    }
}

/// The contents tracked for a fresh texture: nothing for an absent
/// payload or a zero extent; a compressed payload verbatim; an
/// uncompressed payload normalized to the four-channel eight-bit
/// encoding, untracked where the model cannot normalize it
/// (floating-point components).
pub open spec fn spec_initial_tracked(
    client: Option<ClientFormatAny>,
    bytes: Seq<u8>,
    zero: bool,
) -> Option<(ClientFormatAny, Seq<u8>)> {
    if zero {
        None
    } else {
        match client {
            None => None,
            Some(ClientFormatAny::ClientFormat(cf)) => match crate::format::spec_normalized_or_none(
                cf,
                bytes,
            ) {
                Some(n) => Some((ClientFormatAny::ClientFormat(ClientFormat::U8U8U8U8), n)),
                None => None,
            },
            Some(c) => Some((c, bytes)),
        }
    }
}

/// Whether creation must regenerate mipmaps once after the base upload:
/// regeneration was requested, there is more than one level, and the
/// data is not client-compressed.
pub open spec fn spec_generate_on_creation(
    mipmaps: MipmapsOption,
    width: u32,
    height: Option<u32>,
    depth: Option<u32>,
    client: Option<ClientFormatAny>,
) -> bool {
    &&& mipmaps.spec_should_generate()
    &&& mipmaps.spec_num_levels(width, height, depth) > 1
    &&& !(match client {
        Some(c) => c.spec_is_compressed(),
        None => false,
    })
}

/// The creation decision: which error a creation request fails with, or
/// the negotiated format it proceeds with. Dimension restrictions are
/// checked first, then format negotiation; a multisample request on a
/// driver without multisample allocation, or a regeneration request on a
/// driver without regeneration, is `NotSupported`.
pub open spec fn spec_creation_outcome(
    caps: CapabilitySnapshot,
    format: TextureFormatRequest,
    client: Option<ClientFormatAny>,
    mipmaps: MipmapsOption,
    width: u32,
    height: Option<u32>,
    depth: Option<u32>,
    array_size: Option<u32>,
    samples: Option<u32>,
) -> Result<NegotiatedFormat, TextureMaybeSupportedCreationError> {
    if !spec_dims_ok(caps, width, height, depth, array_size) {
        Err(
            TextureMaybeSupportedCreationError::CreationError(
                TextureCreationError::DimensionsNotSupported,
            ),
        )
    } else {
        match spec_negotiate(caps, format, client) {
            Err(e) => Err(TextureMaybeSupportedCreationError::CreationError(e)),
            Ok(neg) => {
                if samples is Some && neg.storage_format is None
                    && !caps.spec_multisample_supported() {
                    Err(TextureMaybeSupportedCreationError::NotSupported)
                } else if spec_generate_on_creation(mipmaps, width, height, depth, client)
                    && !caps.spec_regen_supported() {
                    Err(TextureMaybeSupportedCreationError::NotSupported)
                } else {
                    Ok(neg)
                }
            },
        }
    }
}

/// The sampling/wrapping parameter commands issued right after binding a
/// fresh texture.
pub open spec fn spec_param_commands(
    caps: CapabilitySnapshot,
    ty: TextureType,
    levels: u32,
    height: Option<u32>,
    depth: Option<u32>,
    array_size: Option<u32>,
) -> Seq<GlCommand> {
    seq![GlCommand::SetWrapSRepeat(ty)] + (if height is Some || depth is Some
        || array_size is Some {
        seq![GlCommand::SetWrapTRepeat(ty)]
    } else {
        Seq::empty()
    }) + (if depth is Some || array_size is Some {
        seq![GlCommand::SetWrapRRepeat(ty)]
    } else {
        Seq::empty()
    }) + seq![GlCommand::SetMagFilterLinear(ty)] + (if levels > 1 {
        seq![GlCommand::SetMinFilterLinearMipmapLinear(ty)]
    } else {
        seq![GlCommand::SetMinFilterLinear(ty)]
    }) + (if levels <= 1 && (caps.version.spec_at_least(Api::Gl, 1, 2)
        || caps.version.spec_at_least(Api::GlEs, 3, 0)) {
        seq![GlCommand::SetBaseLevel(ty, 0), GlCommand::SetMaxLevel(ty, 0)]
    } else {
        Seq::empty()
    })
}

/// The allocation (and initial upload) commands of a creation request:
/// the two-step preallocate-then-upload path when a storage format was
/// negotiated, the one-step path otherwise; compressed payloads go
/// through the compressed entry points; zero extents are allocated as
/// one with the upload suppressed.
pub open spec fn spec_alloc_commands(
    ty: TextureType,
    levels: u32,
    neg: NegotiatedFormat,
    is_client_compressed: bool,
    data_len: usize,
    has_data: bool,
    width: u32,
    height: Option<u32>,
    depth: Option<u32>,
    array_size: Option<u32>,
    samples: Option<u32>,
) -> Seq<GlCommand> {
    if ty is Texture2dMultisample || ty is Texture2dMultisampleArray {
        let w = spec_sub1(width);
        let h = spec_sub1(spec_or1(height));
        if neg.storage_format is Some {
            seq![
                GlCommand::TexStorageMultisample {
                    target: ty,
                    samples: spec_or0(samples),
                    format: neg.storage_format->0,
                    width: w,
                    height: h,
                    array_size: spec_or0(array_size),
                },
            ]
        } else {
            seq![
                GlCommand::TexImageMultisample {
                    target: ty,
                    samples: spec_or0(samples),
                    format: neg.teximg_format,
                    width: w,
                    height: h,
                    array_size: spec_or0(array_size),
                },
            ]
        }
    } else {
        let second = if ty is Texture1d {
            None
        } else {
            spec_or(height, array_size)
        };
        let third = if ty is Texture3d || ty is Texture2dArray {
            spec_or(depth, array_size)
        } else {
            None
        };
        let w = spec_sub1(width);
        let h = spec_sub1(spec_or1(second));
        let d = spec_sub1(spec_or1(third));
        let present = has_data && width != 0 && spec_or1(second) != 0 && spec_or1(third) != 0;
        if neg.storage_format is Some {
            seq![
                GlCommand::TexStorage {
                    target: ty,
                    levels,
                    format: neg.storage_format->0,
                    width: w,
                    height: h,
                    depth: d,
                },
            ] + (if present {
                if is_client_compressed {
                    seq![
                        GlCommand::CompressedTexSubImage {
                            target: ty,
                            level: 0,
                            x: 0,
                            y: 0,
                            z: 0,
                            width: w,
                            height: h,
                            depth: d,
                            format: neg.teximg_format,
                            data_len,
                        },
                    ]
                } else {
                    seq![
                        GlCommand::TexSubImage {
                            target: ty,
                            level: 0,
                            x: 0,
                            y: 0,
                            z: 0,
                            width: w,
                            height: h,
                            depth: d,
                            transfer: neg.transfer->0,
                            data_len,
                        },
                    ]
                }
            } else {
                Seq::empty()
            })
        } else {
            if is_client_compressed && present {
                seq![
                    GlCommand::CompressedTexImage {
                        target: ty,
                        format: neg.teximg_format,
                        width: w,
                        height: h,
                        depth: d,
                        data_len,
                    },
                ]
            } else {
                seq![
                    GlCommand::TexImage {
                        target: ty,
                        format: neg.teximg_format,
                        width: w,
                        height: h,
                        depth: d,
                        transfer: neg.transfer,
                        has_data: present,
                    },
                ]
            }
        }
    }
}

/// The mipmap-regeneration command of a creation or upload, when one is
/// owed: the core entry point where the driver has it, the
/// framebuffer-object extension's otherwise.
pub open spec fn spec_regen_commands(
    caps: CapabilitySnapshot,
    ty: TextureType,
    generate: bool,
) -> Seq<GlCommand> {
    if generate {
        if caps.version.spec_at_least(Api::Gl, 3, 0) || caps.version.spec_at_least(
            Api::GlEs,
            2,
            0,
        ) {
            seq![GlCommand::GenerateMipmap(ty)]
        } else {
            seq![GlCommand::GenerateMipmapExt(ty)]
        }
    } else {
        Seq::empty()
    }
}

/// The full driver-call sequence of a successful creation: the unpack
/// preamble (only what differs from the wanted state), handle creation
/// and binding, sampling parameters, allocation with the initial upload,
/// and at most one mipmap regeneration.
pub open spec fn spec_creation_commands(
    state0: GlState,
    caps: CapabilitySnapshot,
    ty: TextureType,
    id: u32,
    levels: u32,
    neg: NegotiatedFormat,
    is_client_compressed: bool,
    data_len: usize,
    has_data: bool,
    width: u32,
    height: Option<u32>,
    depth: Option<u32>,
    array_size: Option<u32>,
    samples: Option<u32>,
    generate: bool,
) -> Seq<GlCommand> {
    crate::context::spec_unpack_preamble(state0) + seq![
        GlCommand::GenTexture(id),
        GlCommand::BindTexture(ty, id),
    ] + spec_param_commands(caps, ty, levels, height, depth, array_size) + spec_alloc_commands(
        ty,
        levels,
        neg,
        is_client_compressed,
        data_len,
        has_data,
        width,
        height,
        depth,
        array_size,
        samples,
    ) + spec_regen_commands(caps, ty, generate)
}

/// Derives the dimensionality from the populated axes.
fn texture_type_of(
    height: Option<u32>,
    depth: Option<u32>,
    array_size: Option<u32>,
    samples: Option<u32>,
) -> (r: TextureType)
    requires
        valid_shape(height, depth, array_size, samples),
    ensures
        r == spec_texture_type(height, depth, array_size, samples),
{
    if height.is_none() {
        if array_size.is_none() {
            TextureType::Texture1d
        } else {
            TextureType::Texture1dArray
        }
    } else if depth.is_none() {
        match (array_size.is_some(), samples.is_some()) {
            (false, false) => TextureType::Texture2d,
            (true, false) => TextureType::Texture2dArray,
            (false, true) => TextureType::Texture2dMultisample,
            (true, true) => TextureType::Texture2dMultisampleArray,
        }
    } else {
        TextureType::Texture3d
    }
}

/// Builds a new texture: validates the dimensions against the driver's
/// restrictions, negotiates the concrete formats, and issues the
/// allocation sequence on the context — the whole mipmap chain is
/// preallocated when the driver supports immutable storage, allocated
/// with the data in one step otherwise, and regenerated once when
/// automatic mipmaps were requested. On any failure the context is
/// untouched: no partially constructed resource is observable.
///
/// The byte length of a supplied payload must equal the exact buffer
/// size of its encoding over the populated axes, and multisample
/// textures take no payload.
#[verifier::rlimit(100)]
#[verifier::spinoff_prover]
pub fn new_texture(
    ctxt: &mut Context,
    format: TextureFormatRequest,
    data: Option<(ClientFormatAny, Vec<u8>)>,
    mipmaps: MipmapsOption,
    width: u32,
    height: Option<u32>,
    depth: Option<u32>,
    array_size: Option<u32>,
    samples: Option<u32>,
) -> (r: Result<TextureAny, TextureMaybeSupportedCreationError>)
    requires
        old(ctxt).wf(),
        old(ctxt).next_texture_id < u32::MAX,
        valid_shape(height, depth, array_size, samples),
        samples is Some ==> data is None,
        data matches Some(p) ==> p.1@.len() == p.0.spec_buffer_size(
            width,
            height,
            depth,
            array_size,
        ),
    ensures
        final(ctxt).wf(),
        final(ctxt).caps == old(ctxt).caps,
        match (
            r,
            spec_creation_outcome(
                old(ctxt).caps,
                format,
                spec_client_of(data),
                mipmaps,
                width,
                height,
                depth,
                array_size,
                samples,
            ),
        ) {
            (Err(e), Err(expected)) => e == expected && *final(ctxt) == *old(ctxt),
            (Ok(tex), Ok(neg)) => {
                &&& tex.id == old(ctxt).next_texture_id
                &&& tex.requested_format == format
                &&& tex.internal_format == neg.teximg_format
                &&& tex.actual_format is None
                &&& tex.ty == spec_texture_type(height, depth, array_size, samples)
                &&& tex.width == width
                &&& tex.height == height
                &&& tex.depth == depth
                &&& tex.array_size == array_size
                &&& tex.levels == mipmaps.spec_num_levels(width, height, depth)
                &&& tex.generate_mipmaps == mipmaps.spec_should_generate()
                &&& tex.wf()
                &&& final(ctxt).next_texture_id == old(ctxt).next_texture_id + 1
                &&& final(ctxt).next_buffer_id == old(ctxt).next_buffer_id
                &&& final(ctxt).fbo_cache == old(ctxt).fbo_cache
                &&& final(ctxt).state.unpack_alignment == 1
                &&& final(ctxt).state.pixel_unpack_buffer == 0
                &&& final(ctxt).state.pack_alignment == old(ctxt).state.pack_alignment
                &&& final(ctxt).state.pixel_pack_buffer == old(ctxt).state.pixel_pack_buffer
                &&& final(ctxt).state.active_texture == old(ctxt).state.active_texture
                &&& final(ctxt).state.texture_units@ == old(ctxt).state.texture_units@.update(old(ctxt).state.active_texture as int, tex.id)
                &&& final(ctxt).textures@.len() == old(ctxt).textures@.len() + 1
                &&& (forall|i: int|
                    0 <= i < old(ctxt).textures@.len() ==> (#[trigger] final(ctxt).textures@[i])
                        == old(ctxt).textures@[i])
                &&& final(ctxt).textures@.last().id == old(ctxt).next_texture_id
                &&& final(ctxt).textures@.last().internal_format == neg.teximg_format
                &&& final(ctxt).textures@.last().width == width
                &&& final(ctxt).textures@.last().height == spec_or1(spec_or(height, array_size))
                &&& final(ctxt).textures@.last().planes == spec_planes(height, depth, array_size)
                &&& crate::context::spec_tracked(final(ctxt).textures@.last().data)
                    == spec_initial_tracked(
                    spec_client_of(data),
                    spec_data_bytes(data),
                    spec_zero_axis(width, height, depth, array_size),
                )
                &&& final(ctxt).issued@ == old(ctxt).issued@ + spec_creation_commands(
                    old(ctxt).state,
                    old(ctxt).caps,
                    tex.ty,
                    tex.id,
                    tex.levels,
                    neg,
                    (match spec_client_of(data) {
                        Some(c) => c.spec_is_compressed(),
                        None => false,
                    }),
                    (match data {
                        Some(p) => p.1@.len() as usize,
                        None => 0,
                    }),
                    data is Some,
                    width,
                    height,
                    depth,
                    array_size,
                    samples,
                    spec_generate_on_creation(mipmaps, width, height, depth, spec_client_of(data)),
                )
            },
            _ => false,
        },
{
    let caps: CapabilitySnapshot = ctxt.caps;

    // dimension restrictions come first; no driver call is made on failure
    if caps.npot_restricted() {
        let pow_ok: bool = is_pow2(width) && axis_pow2(height) && axis_pow2(depth) && axis_pow2(
            array_size,
        );
        if !pow_ok {
            return Err(
                TextureMaybeSupportedCreationError::CreationError(
                    TextureCreationError::DimensionsNotSupported,
                ),
            );
        }
    }

    let (client, is_client_compressed, data_len): (Option<ClientFormatAny>, bool, usize) =
        match &data {
        Some(p) => (Some(p.0), p.0.is_compressed(), p.1.len()),
        None => (None, false, 0),
    };

    let neg: NegotiatedFormat = match negotiate(&caps, format, client) {
        Ok(n) => n,
        Err(e) => {
            return Err(TextureMaybeSupportedCreationError::CreationError(e));
        },
    };

    let levels: u32 = mipmaps.num_levels(width, height, depth);
    let should_generate: bool = mipmaps.should_generate();
    let generate: bool = should_generate && levels > 1 && !is_client_compressed;

    if samples.is_some() && neg.storage_format.is_none() && !caps.multisample_supported() {
        return Err(TextureMaybeSupportedCreationError::NotSupported);
    }
    if generate && !caps.regen_supported() {
        return Err(TextureMaybeSupportedCreationError::NotSupported);
    }

    let ty: TextureType = texture_type_of(height, depth, array_size, samples);
    let id: u32 = perform_creation(
        ctxt,
        ty,
        levels,
        neg,
        is_client_compressed,
        data_len,
        data,
        width,
        height,
        depth,
        array_size,
        samples,
        generate,
    );

    Ok(
        TextureAny {
            id,
            requested_format: format,
            internal_format: neg.teximg_format,
            actual_format: None,
            ty,
            width,
            height,
            depth,
            array_size,
            levels,
            generate_mipmaps: should_generate,
        },
    )
}


/// Issues the whole driver-call sequence of a creation request that
/// passed validation, records the driver-resident storage, and returns
/// the fresh handle.
#[verifier::rlimit(100)]
#[verifier::spinoff_prover]
fn perform_creation(
    ctxt: &mut Context,
    ty: TextureType,
    levels: u32,
    neg: NegotiatedFormat,
    is_client_compressed: bool,
    data_len: usize,
    data: Option<(ClientFormatAny, Vec<u8>)>,
    width: u32,
    height: Option<u32>,
    depth: Option<u32>,
    array_size: Option<u32>,
    samples: Option<u32>,
    generate: bool,
) -> (r: u32)
    requires
        old(ctxt).wf(),
        old(ctxt).next_texture_id < u32::MAX,
        is_client_compressed == (match spec_client_of(data) {
            Some(c) => c.spec_is_compressed(),
            None => false,
        }),
        data_len == (match data {
            Some(p) => p.1@.len(),
            None => 0nat,
        }),
        data is Some && !is_client_compressed ==> neg.transfer is Some,
    ensures
        r == old(ctxt).next_texture_id,
        final(ctxt).wf(),
        final(ctxt).caps == old(ctxt).caps,
        final(ctxt).next_texture_id == old(ctxt).next_texture_id + 1,
        final(ctxt).next_buffer_id == old(ctxt).next_buffer_id,
        final(ctxt).fbo_cache == old(ctxt).fbo_cache,
        final(ctxt).state.unpack_alignment == 1,
        final(ctxt).state.pixel_unpack_buffer == 0,
        final(ctxt).state.pack_alignment == old(ctxt).state.pack_alignment,
        final(ctxt).state.pixel_pack_buffer == old(ctxt).state.pixel_pack_buffer,
        final(ctxt).state.active_texture == old(ctxt).state.active_texture,
        final(ctxt).state.texture_units@ == old(ctxt).state.texture_units@.update(
            old(ctxt).state.active_texture as int,
            r,
        ),
        final(ctxt).textures@.len() == old(ctxt).textures@.len() + 1,
        forall|i: int|
            0 <= i < old(ctxt).textures@.len() ==> (#[trigger] final(ctxt).textures@[i]) == old(
                ctxt,
            ).textures@[i],
        final(ctxt).textures@.last().id == old(ctxt).next_texture_id,
        final(ctxt).textures@.last().internal_format == neg.teximg_format,
        final(ctxt).textures@.last().width == width,
        final(ctxt).textures@.last().height == spec_or1(spec_or(height, array_size)),
        final(ctxt).textures@.last().planes == spec_planes(height, depth, array_size),
        crate::context::spec_tracked(final(ctxt).textures@.last().data) == spec_initial_tracked(
            spec_client_of(data),
            spec_data_bytes(data),
            spec_zero_axis(width, height, depth, array_size),
        ),
        final(ctxt).issued@ == old(ctxt).issued@ + spec_creation_commands(
            old(ctxt).state,
            old(ctxt).caps,
            ty,
            r,
            levels,
            neg,
            is_client_compressed,
            data_len,
            data is Some,
            width,
            height,
            depth,
            array_size,
            samples,
            generate,
        ),
{
    let caps: CapabilitySnapshot = ctxt.caps;
    let id: u32 = ctxt.next_texture_id;
    ctxt.next_texture_id = id + 1;

    // deterministic unpack state, then handle creation and binding
    let ghost base: Seq<GlCommand> = ctxt.issued@;
    let ghost state0: GlState = ctxt.state;
    ctxt.prepare_unpack();
    ctxt.issued.push(GlCommand::GenTexture(id));
    ctxt.bind_texture(ty, id);
    proof {
        assert(ctxt.issued@ =~= base + crate::context::spec_unpack_preamble(state0) + seq![
            GlCommand::GenTexture(id),
            GlCommand::BindTexture(ty, id),
        ]);
    }
    let ghost after_bind: Seq<GlCommand> = ctxt.issued@;

    // sampling parameters
    issue_params(ctxt, ty, levels, height, depth, array_size);
    proof {
        assert(ctxt.issued@ =~= after_bind + spec_param_commands(
            caps,
            ty,
            levels,
            height,
            depth,
            array_size,
        ));
    }
    let ghost after_params: Seq<GlCommand> = ctxt.issued@;

    // allocation, with the initial upload where data is present
    issue_alloc(
        ctxt,
        ty,
        levels,
        neg,
        is_client_compressed,
        data_len,
        data.is_some(),
        width,
        height,
        depth,
        array_size,
        samples,
    );
    let ghost after_alloc: Seq<GlCommand> = ctxt.issued@;

    // one synchronous regeneration when automatic mipmaps were requested
    issue_regen(ctxt, ty, generate);

    // record the driver-resident storage
    let ghost data0: Option<(ClientFormatAny, Vec<u8>)> = data;
    let zero: bool = width == 0 || or1(height) == 0 || or1(depth) == 0 || or1(array_size) == 0;
    let plane_height: u32 = if height.is_some() {
        or1(height)
    } else {
        or1(array_size)
    };
    let planes: u32 = if depth.is_some() {
        or1(depth)
    } else if height.is_some() && array_size.is_some() {
        or1(array_size)
    } else {
        1
    };
    let tracked_data: Option<(ClientFormatAny, Vec<u8>)> = if zero {
        None
    } else {
        match data {
            None => None,
            Some(p) => {
                match p.0 {
                    ClientFormatAny::ClientFormat(cf) => {
                        match crate::format::normalize_rgba8(cf, &p.1) {
                            Some(n) => Some(
                                (ClientFormatAny::ClientFormat(ClientFormat::U8U8U8U8), n),
                            ),
                            None => None,
                        }
                    },
                    _ => Some(p),
                }
            },
        }
    };
    proof {
        assert(crate::context::spec_tracked(tracked_data) == spec_initial_tracked(
            spec_client_of(data0),
            spec_data_bytes(data0),
            spec_zero_axis(width, height, depth, array_size),
        ));
    }
    ctxt.textures.push(
        TextureStore {
            id,
            internal_format: neg.teximg_format,
            width,
            height: plane_height,
            planes,
            data: tracked_data,
        },
    );

    proof {
        let base0 = old(ctxt).issued@;
        let pre = crate::context::spec_unpack_preamble(old(ctxt).state);
        let genbind = seq![GlCommand::GenTexture(id), GlCommand::BindTexture(ty, id)];
        let params = spec_param_commands(caps, ty, levels, height, depth, array_size);
        let alloc = spec_alloc_commands(
            ty,
            levels,
            neg,
            is_client_compressed,
            data_len,
            data is Some,
            width,
            height,
            depth,
            array_size,
            samples,
        );
        let regen = spec_regen_commands(caps, ty, generate);
        assert(ctxt.issued@ == after_alloc + regen);
        assert(ctxt.issued@ == ((((base0 + pre) + genbind) + params) + alloc) + regen);
        vstd::seq_lib::lemma_concat_associative(base0, pre, genbind);
        vstd::seq_lib::lemma_concat_associative(base0, pre + genbind, params);
        vstd::seq_lib::lemma_concat_associative(base0, (pre + genbind) + params, alloc);
        vstd::seq_lib::lemma_concat_associative(base0, ((pre + genbind) + params) + alloc, regen);
        assert(ctxt.issued@ == base0 + ((((pre + genbind) + params) + alloc) + regen));
        assert(ctxt.issued@ == old(ctxt).issued@ + spec_creation_commands(
            old(ctxt).state,
            old(ctxt).caps,
            ty,
            id,
            levels,
            neg,
            is_client_compressed,
            data_len,
            data is Some,
            width,
            height,
            depth,
            array_size,
            samples,
            generate,
        ));
        assert forall|i: int| 0 <= i < ctxt.textures.len() implies (#[trigger] ctxt.textures[i].id)
            != 0 && ctxt.textures[i].id < ctxt.next_texture_id by {
            if i < old(ctxt).textures.len() {
                assert(old(ctxt).textures[i].id != 0);
            }
        }
    }

    id
}

/// Issues the sampling/wrapping parameter commands of a fresh texture.
fn issue_params(
    ctxt: &mut Context,
    ty: TextureType,
    levels: u32,
    height: Option<u32>,
    depth: Option<u32>,
    array_size: Option<u32>,
)
    ensures
        final(ctxt).issued@ == old(ctxt).issued@ + spec_param_commands(
            old(ctxt).caps,
            ty,
            levels,
            height,
            depth,
            array_size,
        ),
        final(ctxt).caps == old(ctxt).caps,
        final(ctxt).state == old(ctxt).state,
        final(ctxt).next_texture_id == old(ctxt).next_texture_id,
        final(ctxt).next_buffer_id == old(ctxt).next_buffer_id,
        final(ctxt).textures == old(ctxt).textures,
        final(ctxt).fbo_cache == old(ctxt).fbo_cache,
{
    ctxt.issued.push(GlCommand::SetWrapSRepeat(ty));
    if height.is_some() || depth.is_some() || array_size.is_some() {
        ctxt.issued.push(GlCommand::SetWrapTRepeat(ty));
    }
    if depth.is_some() || array_size.is_some() {
        ctxt.issued.push(GlCommand::SetWrapRRepeat(ty));
    }
    ctxt.issued.push(GlCommand::SetMagFilterLinear(ty));
    if levels > 1 {
        ctxt.issued.push(GlCommand::SetMinFilterLinearMipmapLinear(ty));
    } else {
        ctxt.issued.push(GlCommand::SetMinFilterLinear(ty));
    }
    if levels <= 1 && (ctxt.caps.version.at_least(Api::Gl, 1, 2) || ctxt.caps.version.at_least(
        Api::GlEs,
        3,
        0,
    )) {
        ctxt.issued.push(GlCommand::SetBaseLevel(ty, 0));
        ctxt.issued.push(GlCommand::SetMaxLevel(ty, 0));
    }
    proof {
        assert(ctxt.issued@ =~= old(ctxt).issued@ + spec_param_commands(
            old(ctxt).caps,
            ty,
            levels,
            height,
            depth,
            array_size,
        ));
    }
}

/// Issues the allocation (and initial upload) commands of a creation
/// request.
fn issue_alloc(
    ctxt: &mut Context,
    ty: TextureType,
    levels: u32,
    neg: NegotiatedFormat,
    is_client_compressed: bool,
    data_len: usize,
    has_data: bool,
    width: u32,
    height: Option<u32>,
    depth: Option<u32>,
    array_size: Option<u32>,
    samples: Option<u32>,
)
    requires
        has_data && !is_client_compressed ==> neg.transfer is Some,
    ensures
        final(ctxt).issued@ == old(ctxt).issued@ + spec_alloc_commands(
            ty,
            levels,
            neg,
            is_client_compressed,
            data_len,
            has_data,
            width,
            height,
            depth,
            array_size,
            samples,
        ),
        final(ctxt).caps == old(ctxt).caps,
        final(ctxt).state == old(ctxt).state,
        final(ctxt).next_texture_id == old(ctxt).next_texture_id,
        final(ctxt).next_buffer_id == old(ctxt).next_buffer_id,
        final(ctxt).textures == old(ctxt).textures,
        final(ctxt).fbo_cache == old(ctxt).fbo_cache,
{
    if matches!(ty, TextureType::Texture2dMultisample) || matches!(
        ty,
        TextureType::Texture2dMultisampleArray,
    ) {
        let w: u32 = sub1(width);
        let h: u32 = sub1(or1(height));
        match neg.storage_format {
            Some(sf) => {
                ctxt.issued.push(
                    GlCommand::TexStorageMultisample {
                        target: ty,
                        samples: or0(samples),
                        format: sf,
                        width: w,
                        height: h,
                        array_size: or0(array_size),
                    },
                );
            },
            None => {
                ctxt.issued.push(
                    GlCommand::TexImageMultisample {
                        target: ty,
                        samples: or0(samples),
                        format: neg.teximg_format,
                        width: w,
                        height: h,
                        array_size: or0(array_size),
                    },
                );
            },
        }
    } else {
        let second: Option<u32> = if matches!(ty, TextureType::Texture1d) {
            None
        } else if height.is_some() {
            height
        } else {
            array_size
        };
        let third: Option<u32> = if matches!(ty, TextureType::Texture3d) || matches!(
            ty,
            TextureType::Texture2dArray,
        ) {
            if depth.is_some() {
                depth
            } else {
                array_size
            }
        } else {
            None
        };
        let w: u32 = sub1(width);
        let h: u32 = sub1(or1(second));
        let d: u32 = sub1(or1(third));
        let present: bool = has_data && width != 0 && or1(second) != 0 && or1(third) != 0;
        match neg.storage_format {
            Some(sf) => {
                ctxt.issued.push(
                    GlCommand::TexStorage {
                        target: ty,
                        levels,
                        format: sf,
                        width: w,
                        height: h,
                        depth: d,
                    },
                );
                if present {
                    if is_client_compressed {
                        ctxt.issued.push(
                            GlCommand::CompressedTexSubImage {
                                target: ty,
                                level: 0,
                                x: 0,
                                y: 0,
                                z: 0,
                                width: w,
                                height: h,
                                depth: d,
                                format: neg.teximg_format,
                                data_len,
                            },
                        );
                    } else {
                        ctxt.issued.push(
                            GlCommand::TexSubImage {
                                target: ty,
                                level: 0,
                                x: 0,
                                y: 0,
                                z: 0,
                                width: w,
                                height: h,
                                depth: d,
                                transfer: neg.transfer.unwrap(),
                                data_len,
                            },
                        );
                    }
                }
            },
            None => {
                if is_client_compressed && present {
                    ctxt.issued.push(
                        GlCommand::CompressedTexImage {
                            target: ty,
                            format: neg.teximg_format,
                            width: w,
                            height: h,
                            depth: d,
                            data_len,
                        },
                    );
                } else {
                    ctxt.issued.push(
                        GlCommand::TexImage {
                            target: ty,
                            format: neg.teximg_format,
                            width: w,
                            height: h,
                            depth: d,
                            transfer: neg.transfer,
                            has_data: present,
                        },
                    );
                }
            },
        }
    }
    proof {
        assert(ctxt.issued@ =~= old(ctxt).issued@ + spec_alloc_commands(
            ty,
            levels,
            neg,
            is_client_compressed,
            data_len,
            has_data,
            width,
            height,
            depth,
            array_size,
            samples,
        ));
    }
}

/// Issues the mipmap-regeneration command when one is owed.
fn issue_regen(ctxt: &mut Context, ty: TextureType, generate: bool)
    ensures
        final(ctxt).issued@ == old(ctxt).issued@ + spec_regen_commands(
            old(ctxt).caps,
            ty,
            generate,
        ),
        final(ctxt).caps == old(ctxt).caps,
        final(ctxt).state == old(ctxt).state,
        final(ctxt).next_texture_id == old(ctxt).next_texture_id,
        final(ctxt).next_buffer_id == old(ctxt).next_buffer_id,
        final(ctxt).textures == old(ctxt).textures,
        final(ctxt).fbo_cache == old(ctxt).fbo_cache,
{
    if generate {
        if ctxt.caps.version.at_least(Api::Gl, 3, 0) || ctxt.caps.version.at_least(
            Api::GlEs,
            2,
            0,
        ) {
            ctxt.issued.push(GlCommand::GenerateMipmap(ty));
        } else {
            ctxt.issued.push(GlCommand::GenerateMipmapExt(ty));
        }
    }
    proof {
        assert(ctxt.issued@ =~= old(ctxt).issued@ + spec_regen_commands(
            old(ctxt).caps,
            ty,
            generate,
        ));
    }
}

/// Tests an optional axis against the power-of-two restriction.
fn axis_pow2(axis: Option<u32>) -> (r: bool)
    ensures
        r == spec_axis_pow2(axis),
{
    match axis {
        Some(v) => is_pow2(v),
        None => true,
    }
}

/// The extent of an optional axis, one when absent.
fn or1(axis: Option<u32>) -> (r: u32)
    ensures
        r == spec_or1(axis),
{
    match axis {
        Some(v) => v,
        None => 1,
    }
}

/// The extent of an optional axis, zero when absent.
fn or0(axis: Option<u32>) -> (r: u32)
    ensures
        r == spec_or0(axis),
{
    match axis {
        Some(v) => v,
        None => 0,
    }
}

/// One substituted for a zero extent.
fn sub1(extent: u32) -> (r: u32)
    ensures
        r == spec_sub1(extent),
{
    if extent == 0 {
        1
    } else {
        extent
    }
}

} // verus!
