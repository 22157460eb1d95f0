//! The upload/readback engine: partial writes into a mipmap view,
//! regular and compressed readback, and staging into a driver-side
//! transfer buffer. Every operation re-establishes the pixel-store state
//! it depends on before transferring.

use vstd::prelude::*;

use crate::context::{spec_tracked, Context, GlCommand, GlState, TextureStore};
use crate::error::UploadError;
use crate::format::{
    blocks_on_axis, spec_normalized_or_none, ClientFormat, ClientFormatAny, InternalFormat,
};
use crate::negotiate::{client_transfer, spec_client_transfer};
use crate::texture::{spec_or1, TextureAny, TextureAnyMipmap, TextureType};
use crate::version::Api;

verus! {

/// A region of a two-dimensional surface, addressed from its lower-left
/// corner.
#[derive(Copy, Clone, PartialEq, Eq, Structural, Debug)]
pub struct Rect {
    pub left: u32,
    pub bottom: u32,
    pub width: u32,
    pub height: u32,
}

/// A destination region lies fully inside a level's derived shape —
/// the containment precondition of every partial write.
pub open spec fn spec_rect_fits(
    level_width: u32,
    level_height: u32,
    x0: u32,
    y0: u32,
    rect_w: u32,
    rect_h: u32,
) -> bool {
    x0 + rect_w <= level_width && y0 + rect_h <= level_height
}

/// A destination that extends even one unit past the view's derived
/// width or height fails the containment precondition of a write, while
/// one that matches the view bounds exactly satisfies it.
pub proof fn lemma_write_boundary(
    level_width: u32,
    level_height: u32,
    x0: u32,
    y0: u32,
    rect_w: u32,
    rect_h: u32,
)
    ensures
        x0 + rect_w == level_width + 1 ==> !spec_rect_fits(
            level_width,
            level_height,
            x0,
            y0,
            rect_w,
            rect_h,
        ),
        y0 + rect_h == level_height + 1 ==> !spec_rect_fits(
            level_width,
            level_height,
            x0,
            y0,
            rect_w,
            rect_h,
        ),
        (x0 == 0 && y0 == 0 && rect_w == level_width && rect_h == level_height)
            ==> spec_rect_fits(level_width, level_height, x0, y0, rect_w, rect_h),
{
}

impl<'a> TextureAnyMipmap<'a> {
    /// Whether a destination region lies fully inside this level's
    /// derived shape — the precondition of every partial write. A region
    /// one unit past the derived width or height does not fit.
    pub fn rect_fits(&self, rect: Rect) -> (r: bool)
        ensures
            r == spec_rect_fits(
                self.width,
                spec_or1(self.height),
                rect.left,
                rect.bottom,
                rect.width,
                rect.height,
            ),
    {
        let h: u32 = self.height.unwrap_or(1);
        (rect.width <= self.width && rect.left <= self.width - rect.width) && (rect.height <= h
            && rect.bottom <= h - rect.height)
    }
}

/// The internal format a compressed payload carries its data in, `None`
/// for uncompressed payloads. A compressed sub-image upload must name
/// the destination's own internal format: the driver rejects a
/// mismatch.
pub open spec fn spec_payload_internal(format: ClientFormatAny) -> Option<InternalFormat> {
    match format {
        ClientFormatAny::CompressedFormat(f) => Some(crate::negotiate::spec_compressed_internal(f)),
        ClientFormatAny::CompressedSrgbFormat(f) => Some(
            crate::negotiate::spec_compressed_srgb_internal(f),
        ),
        ClientFormatAny::ClientFormat(_) => None,
    }
}

/// Bytes of one 4x4 block of a compressed payload, one for uncompressed
/// payloads.
pub open spec fn spec_payload_block_bytes(format: ClientFormatAny) -> nat {
    match format {
        ClientFormatAny::CompressedFormat(f) => f.spec_block_bytes(),
        ClientFormatAny::CompressedSrgbFormat(f) => f.spec_block_bytes(),
        ClientFormatAny::ClientFormat(_) => 1,
    }
}

/// Whether a partial compressed write respects the destination's 4x4
/// block layout: replacing the whole level is always safe; any other
/// region must start on a block boundary and span whole blocks on each
/// axis, except where it runs to the level's edge.
pub open spec fn spec_compressed_rect_ok(
    x0: u32,
    y0: u32,
    width: u32,
    height: u32,
    level_width: u32,
    level_height: u32,
) -> bool {
    ||| (x0 == 0 && y0 == 0 && width == level_width && height == level_height)
    ||| (x0 % 4 == 0 && y0 % 4 == 0 && (width % 4 == 0 || x0 + width == level_width) && (height % 4
        == 0 || y0 + height == level_height))
}

/// A byte sequence with a rectangular region replaced: the surface has
/// rows of `row_len` bytes; rows `y0 .. y0 + rect_h` have their bytes
/// `x0 .. x0 + rect_w` replaced by the packed rows of `data`.
pub open spec fn spec_spliced(
    base: Seq<u8>,
    row_len: nat,
    x0: nat,
    y0: nat,
    rect_w: nat,
    rect_h: nat,
    data: Seq<u8>,
) -> Seq<u8>
    recommends
        row_len > 0,
        data.len() == rect_w * rect_h,
{
    Seq::new(
        base.len(),
        |i: int|
            {
                let r = i / (row_len as int);
                let c = i % (row_len as int);
                if y0 <= r < y0 + rect_h && x0 <= c < x0 + rect_w && 0 <= (r - y0) * rect_w + (c
                    - x0) < data.len() {
                    data[(r - y0) * rect_w + (c - x0)]
                } else {
                    base[i]
                }
            },
    )
}

/// The tracked contents of a texture after a write into one of its
/// levels. Only the base level of a single-plane texture is tracked;
/// writes to other levels change nothing.
///
/// An uncompressed payload is normalized to the four-channel eight-bit
/// encoding: a full replacement installs it, and a partial write
/// splices it into tracked uncompressed contents, leaving every byte
/// outside the destination region unchanged. A compressed payload
/// replaces the whole payload or is spliced block-wise into tracked
/// contents of the same encoding. Contents become untracked where the
/// model cannot hold the outcome: floating-point components, an
/// uncompressed write into compressed storage (the driver recompresses
/// lossily), or a write into contents that are already undefined or
/// incoherent.
pub open spec fn spec_tracked_after_write(
    contents: Option<(ClientFormatAny, Seq<u8>)>,
    store_width: u32,
    store_height: u32,
    planes: u32,
    internal: InternalFormat,
    level: u32,
    x0: u32,
    y0: u32,
    rect_w: u32,
    rect_h: u32,
    format: ClientFormatAny,
    data: Seq<u8>,
) -> Option<(ClientFormatAny, Seq<u8>)> {
    if level != 0 {
        contents
    } else {
        match format {
            ClientFormatAny::ClientFormat(cf) => {
                if internal.spec_is_compressed() {
                    None
                } else {
                    match spec_normalized_or_none(cf, data) {
                        None => None,
                        Some(rgba) => {
                            if planes == 1 && x0 == 0 && y0 == 0 && rect_w == store_width && rect_h
                                == store_height {
                                Some(
                                    (
                                        ClientFormatAny::ClientFormat(ClientFormat::U8U8U8U8),
                                        rgba,
                                    ),
                                )
                            } else {
                                match contents {
                                    Some((ClientFormatAny::ClientFormat(_), base)) => {
                                        if planes == 1 && base.len() == store_width * store_height
                                            * 4 && x0 + rect_w <= store_width && y0 + rect_h
                                            <= store_height && store_width > 0 && store_height
                                            > 0 {
                                            Some(
                                                (
                                                    ClientFormatAny::ClientFormat(
                                                        ClientFormat::U8U8U8U8,
                                                    ),
                                                    spec_spliced(
                                                        base,
                                                        (store_width * 4) as nat,
                                                        (x0 * 4) as nat,
                                                        y0 as nat,
                                                        (rect_w * 4) as nat,
                                                        rect_h as nat,
                                                        rgba,
                                                    ),
                                                ),
                                            )
                                        } else {
                                            None
                                        }
                                    },
                                    _ => None,
                                }
                            }
                        },
                    }
                }
            },
            _ => {
                let bb = spec_payload_block_bytes(format);
                if planes == 1 && x0 == 0 && y0 == 0 && rect_w == store_width && rect_h
                    == store_height {
                    Some((format, data))
                } else {
                    match contents {
                        Some((f2, base)) => {
                            if f2 == format && planes == 1 && store_width > 0 && store_height > 0
                                && base.len() == blocks_on_axis(store_width as nat)
                                * blocks_on_axis(store_height as nat) * bb && x0 % 4 == 0 && y0 % 4
                                == 0 && x0 as nat / 4 + blocks_on_axis(rect_w as nat)
                                <= blocks_on_axis(store_width as nat) && y0 as nat / 4
                                + blocks_on_axis(rect_h as nat) <= blocks_on_axis(
                                store_height as nat,
                            ) {
                                Some(
                                    (
                                        format,
                                        spec_spliced(
                                            base,
                                            blocks_on_axis(store_width as nat) * bb,
                                            (x0 as nat / 4) * bb,
                                            y0 as nat / 4,
                                            blocks_on_axis(rect_w as nat) * bb,
                                            blocks_on_axis(rect_h as nat),
                                            data,
                                        ),
                                    ),
                                )
                            } else {
                                None
                            }
                        },
                        None => None,
                    }
                }
            },
        }
    }
}

/// The driver commands of a partial write: the unpack preamble (only
/// what differs), a bind, one sub-image upload, and at most one mipmap
/// regeneration.
pub open spec fn spec_upload_commands(
    state0: GlState,
    caps: crate::context::CapabilitySnapshot,
    ty: TextureType,
    id: u32,
    level: u32,
    x0: u32,
    y0: u32,
    rect_w: u32,
    rect_h: u32,
    format: ClientFormatAny,
    internal: InternalFormat,
    transfer: Option<crate::format::TransferParams>,
    data_len: usize,
    regen: bool,
) -> Seq<GlCommand> {
    crate::context::spec_unpack_preamble(state0) + seq![GlCommand::BindTexture(ty, id)] + (
    if format.spec_is_compressed() {
        seq![
            GlCommand::CompressedTexSubImage {
                target: ty,
                level,
                x: x0,
                y: y0,
                z: 0,
                width: rect_w,
                height: rect_h,
                depth: 1,
                format: internal,
                data_len,
            },
        ]
    } else {
        seq![
            GlCommand::TexSubImage {
                target: ty,
                level,
                x: x0,
                y: y0,
                z: 0,
                width: rect_w,
                height: rect_h,
                depth: 1,
                transfer: transfer->0,
                data_len,
            },
        ]
    }) + (if regen {
        if caps.version.spec_at_least(Api::Gl, 3, 0) {
            seq![GlCommand::GenerateMipmap(ty)]
        } else {
            seq![GlCommand::GenerateMipmapExt(ty)]
        }
    } else {
        Seq::empty()
    })
}

/// Changes some parts of the texture level behind a view.
///
/// The destination region must lie inside the view's derived shape and
/// the payload's byte length must match the region exactly; both are
/// preconditions. An uncompressed payload whose encoding is incompatible
/// with the format the texture was created with is rejected with
/// `IncompatibleClientFormat`; a compressed payload that does not carry
/// the destination's internal format, or a partial compressed write
/// that violates the destination's block alignment, is rejected with
/// `WriteRejected`. On rejection the context is untouched. On success
/// the engine issues
/// the unpack preamble, binds the texture, uploads the region, and — if
/// the texture regenerates mipmaps automatically, has more than one
/// level, the write hit the base level and the payload is not compressed
/// — regenerates the mipmap chain once, synchronously.
#[verifier::rlimit(60)]
pub fn upload_texture(
    mip: &TextureAnyMipmap<'_>,
    ctxt: &mut Context,
    x_offset: u32,
    y_offset: u32,
    z_offset: u32,
    format: ClientFormatAny,
    data: &Vec<u8>,
    width: u32,
    height: Option<u32>,
    depth: Option<u32>,
    regen_mipmaps: bool,
) -> (r: Result<(), UploadError>)
    requires
        old(ctxt).wf(),
        mip.wf(),
        mip.texture.ty is Texture2d || mip.texture.ty is Texture1dArray,
        z_offset == 0,
        depth is None,
        spec_rect_fits(mip.width, spec_or1(mip.height), x_offset, y_offset, width, spec_or1(height)),
        data@.len() == format.spec_buffer_size(width, height, depth, None),
        (regen_mipmaps && mip.texture.levels >= 2 && mip.texture.generate_mipmaps
            && !format.spec_is_compressed()) ==> mip.level == 0,
    ensures
        final(ctxt).wf(),
        final(ctxt).caps == old(ctxt).caps,
        final(ctxt).next_texture_id == old(ctxt).next_texture_id,
        final(ctxt).next_buffer_id == old(ctxt).next_buffer_id,
        final(ctxt).fbo_cache == old(ctxt).fbo_cache,
        r == spec_upload_outcome(
            mip.texture.requested_format,
            format,
            mip.texture.internal_format,
            x_offset,
            y_offset,
            width,
            spec_or1(height),
            mip.width,
            spec_or1(mip.height),
        ),
        r is Err ==> *final(ctxt) == *old(ctxt),
        r is Ok ==> {
            &&& final(ctxt).state.unpack_alignment == 1
            &&& final(ctxt).state.pixel_unpack_buffer == 0
            &&& final(ctxt).state.pack_alignment == old(ctxt).state.pack_alignment
            &&& final(ctxt).state.pixel_pack_buffer == old(ctxt).state.pixel_pack_buffer
            &&& final(ctxt).state.active_texture == old(ctxt).state.active_texture
            &&& final(ctxt).state.texture_units@ == old(ctxt).state.texture_units@.update(
                old(ctxt).state.active_texture as int,
                mip.texture.id,
            )
            &&& final(ctxt).issued@ == old(ctxt).issued@ + spec_upload_commands(
                old(ctxt).state,
                old(ctxt).caps,
                mip.texture.ty,
                mip.texture.id,
                mip.level,
                x_offset,
                y_offset,
                width,
                spec_or1(height),
                format,
                mip.texture.internal_format,
                spec_client_transfer(mip.texture.requested_format, (match format {
                    ClientFormatAny::ClientFormat(cf) => cf,
                    _ => ClientFormat::U8,
                })),
                data@.len() as usize,
                spec_upload_regen(
                    regen_mipmaps,
                    mip.texture.levels,
                    mip.texture.generate_mipmaps,
                    format,
                ),
            )
            &&& final(ctxt).textures@.len() == old(ctxt).textures@.len()
            &&& (forall|i: int|
                0 <= i < old(ctxt).textures@.len() && old(ctxt).textures@[i].id
                    != mip.texture.id ==> final(ctxt).textures@[i] == old(ctxt).textures@[i])
            &&& (forall|i: int|
                0 <= i < old(ctxt).textures@.len() && old(ctxt).textures@[i].id
                    == mip.texture.id ==> {
                    let store = old(ctxt).textures@[i];
                    let updated = final(ctxt).textures@[i];
                    &&& updated.id == store.id
                    &&& updated.internal_format == store.internal_format
                    &&& updated.width == store.width
                    &&& updated.height == store.height
                    &&& updated.planes == store.planes
                    &&& spec_tracked(updated.data) == spec_tracked_after_write(
                        spec_tracked(store.data),
                        store.width,
                        store.height,
                        store.planes,
                        store.internal_format,
                        mip.level,
                        x_offset,
                        y_offset,
                        width,
                        spec_or1(height),
                        format,
                        data@,
                    )
                })
        },
{
    let rect_h: u32 = height.unwrap_or(1);
    let is_compressed: bool = format.is_compressed();
    let regen: bool = regen_mipmaps && mip.texture.levels >= 2 && mip.texture.generate_mipmaps
        && !is_compressed;

    // validation comes first; no driver call is made on rejection
    let transfer: Option<crate::format::TransferParams> = match format {
        ClientFormatAny::ClientFormat(cf) => {
            match client_transfer(mip.texture.requested_format, cf) {
                Some(t) => Some(t),
                None => {
                    return Err(UploadError::IncompatibleClientFormat);
                },
            }
        },
        _ => None,
    };
    if is_compressed {
        let payload_internal: Option<InternalFormat> = match format {
            ClientFormatAny::CompressedFormat(f) => Some(
                crate::negotiate::compressed_internal(f),
            ),
            ClientFormatAny::CompressedSrgbFormat(f) => Some(
                crate::negotiate::compressed_srgb_internal(f),
            ),
            _ => None,
        };
        let matches_internal: bool = match payload_internal {
            Some(pi) => pi == mip.texture.internal_format,
            None => false,
        };
        if !matches_internal {
            return Err(UploadError::WriteRejected);
        }
        let full: bool = x_offset == 0 && y_offset == 0 && width == mip.width && rect_h
            == mip.height.unwrap_or(1);
        let aligned: bool = x_offset % 4 == 0 && y_offset % 4 == 0 && (width % 4 == 0 || x_offset
            + width == mip.width) && (rect_h % 4 == 0 || y_offset + rect_h
            == mip.height.unwrap_or(1));
        if !full && !aligned {
            return Err(UploadError::WriteRejected);
        }
    }

    // deterministic unpack state, bind, upload, then regeneration
    let ghost state0: GlState = ctxt.state;
    ctxt.prepare_unpack();
    ctxt.bind_texture(mip.texture.ty, mip.texture.id);
    if is_compressed {
        ctxt.issued.push(
            GlCommand::CompressedTexSubImage {
                target: mip.texture.ty,
                level: mip.level,
                x: x_offset,
                y: y_offset,
                z: 0,
                width,
                height: rect_h,
                depth: 1,
                format: mip.texture.internal_format,
                data_len: data.len(),
            },
        );
    } else {
        ctxt.issued.push(
            GlCommand::TexSubImage {
                target: mip.texture.ty,
                level: mip.level,
                x: x_offset,
                y: y_offset,
                z: 0,
                width,
                height: rect_h,
                depth: 1,
                transfer: transfer.unwrap(),
                data_len: data.len(),
            },
        );
    }
    if regen {
        if ctxt.caps.version.at_least(Api::Gl, 3, 0) {
            ctxt.issued.push(GlCommand::GenerateMipmap(mip.texture.ty));
        } else {
            ctxt.issued.push(GlCommand::GenerateMipmapExt(mip.texture.ty));
        }
    }
    proof {
        assert(ctxt.issued@ =~= old(ctxt).issued@ + spec_upload_commands(
            state0,
            old(ctxt).caps,
            mip.texture.ty,
            mip.texture.id,
            mip.level,
            x_offset,
            y_offset,
            width,
            spec_or1(height),
            format,
            mip.texture.internal_format,
            spec_client_transfer(mip.texture.requested_format, (match format {
                ClientFormatAny::ClientFormat(cf) => cf,
                _ => ClientFormat::U8,
            })),
            data@.len() as usize,
            regen,
        ));
    }

    // track the base level's contents
    proof {
        match format {
            ClientFormatAny::ClientFormat(cf) => {
                assert(data@.len() == width * rect_h * cf.spec_size()) by (nonlinear_arith)
                    requires
                        data@.len() == (width as nat) * crate::format::axis_or_1(height)
                            * crate::format::axis_or_1(depth) * crate::format::axis_or_1(None)
                            * cf.spec_size(),
                        crate::format::axis_or_1(height) == rect_h,
                        crate::format::axis_or_1(depth) == 1,
                        crate::format::axis_or_1(None) == 1nat,
                ;
            },
            _ => {
                assert(data@.len() == blocks_on_axis(width as nat) * blocks_on_axis(rect_h as nat)
                    * spec_payload_block_bytes(format)) by (nonlinear_arith)
                    requires
                        data@.len() == blocks_on_axis(width as nat) * blocks_on_axis(
                            crate::format::axis_or_1(height),
                        ) * crate::format::axis_or_1(depth) * crate::format::axis_or_1(None)
                            * spec_payload_block_bytes(format),
                        crate::format::axis_or_1(height) == rect_h,
                        crate::format::axis_or_1(depth) == 1,
                        crate::format::axis_or_1(None) == 1nat,
                ;
            },
        }
    }
    update_tracked_contents(
        ctxt,
        mip.texture.id,
        mip.level,
        x_offset,
        y_offset,
        width,
        rect_h,
        format,
        data,
    );

    Ok(())
}

/// The rejection decision of a partial write, or `Ok` when it goes
/// through: an uncompressed payload incompatible with the texture's
/// requested format is `IncompatibleClientFormat`; a compressed payload
/// that does not carry the destination's own internal format, or that
/// violates the block layout, is rejected by the backend and surfaced
/// as `WriteRejected`.
pub open spec fn spec_upload_outcome(
    requested: crate::format::TextureFormatRequest,
    format: ClientFormatAny,
    internal: InternalFormat,
    x0: u32,
    y0: u32,
    rect_w: u32,
    rect_h: u32,
    level_width: u32,
    level_height: u32,
) -> Result<(), UploadError> {
    match format {
        ClientFormatAny::ClientFormat(cf) => {
            if spec_client_transfer(requested, cf) is None {
                Err(UploadError::IncompatibleClientFormat)
            } else {
                Ok(())
            }
        },
        _ => {
            if spec_payload_internal(format) != Some(internal) {
                Err(UploadError::WriteRejected)
            } else if !spec_compressed_rect_ok(x0, y0, rect_w, rect_h, level_width, level_height) {
                Err(UploadError::WriteRejected)
            } else {
                Ok(())
            }
        },
    }
}

/// Whether a regeneration is owed after a write: requested at creation,
/// more than one level, and an uncompressed payload.
pub open spec fn spec_upload_regen(
    regen_mipmaps: bool,
    levels: u32,
    generate_mipmaps: bool,
    format: ClientFormatAny,
) -> bool {
    regen_mipmaps && levels >= 2 && generate_mipmaps && !format.spec_is_compressed()
}

/// Applies a write to the tracked contents of the texture's storage
/// slot, per `spec_tracked_after_write`.
fn update_tracked_contents(
    ctxt: &mut Context,
    id: u32,
    level: u32,
    x0: u32,
    y0: u32,
    rect_w: u32,
    rect_h: u32,
    format: ClientFormatAny,
    data: &Vec<u8>,
)
    requires
        old(ctxt).wf(),
        format matches ClientFormatAny::ClientFormat(cf) ==> data@.len() == rect_w * rect_h
            * cf.spec_size(),
        format.spec_is_compressed() ==> data@.len() == blocks_on_axis(rect_w as nat)
            * blocks_on_axis(rect_h as nat) * spec_payload_block_bytes(format),
    ensures
        final(ctxt).wf(),
        final(ctxt).caps == old(ctxt).caps,
        final(ctxt).state == old(ctxt).state,
        final(ctxt).issued == old(ctxt).issued,
        final(ctxt).next_texture_id == old(ctxt).next_texture_id,
        final(ctxt).next_buffer_id == old(ctxt).next_buffer_id,
        final(ctxt).fbo_cache == old(ctxt).fbo_cache,
        final(ctxt).textures@.len() == old(ctxt).textures@.len(),
        forall|i: int|
            0 <= i < old(ctxt).textures@.len() && old(ctxt).textures@[i].id != id ==> final(ctxt).textures@[i] == old(ctxt).textures@[i],
        forall|i: int|
            0 <= i < old(ctxt).textures@.len() && old(ctxt).textures@[i].id == id ==> {
                let store = old(ctxt).textures@[i];
                let updated = final(ctxt).textures@[i];
                &&& updated.id == store.id
                &&& updated.internal_format == store.internal_format
                &&& updated.width == store.width
                &&& updated.height == store.height
                &&& updated.planes == store.planes
                &&& spec_tracked(updated.data) == spec_tracked_after_write(
                    spec_tracked(store.data),
                    store.width,
                    store.height,
                    store.planes,
                    store.internal_format,
                    level,
                    x0,
                    y0,
                    rect_w,
                    rect_h,
                    format,
                    data@,
                )
            },
{
    if level != 0 {
        return ;
    }
    let idx: usize = match ctxt.find_texture(id) {
        Some(i) => i,
        None => {
            return ;
        },
    };
    let new_data: Option<(ClientFormatAny, Vec<u8>)> = written_contents(
        &ctxt.textures[idx],
        x0,
        y0,
        rect_w,
        rect_h,
        format,
        data,
    );
    replace_tracked(ctxt, idx, new_data);
}

/// Computes the contents tracked after a base-level write into one
/// storage slot, per `spec_tracked_after_write` at level zero.
#[verifier::rlimit(100)]
#[verifier::spinoff_prover]
fn written_contents(
    store: &TextureStore,
    x0: u32,
    y0: u32,
    rect_w: u32,
    rect_h: u32,
    format: ClientFormatAny,
    data: &Vec<u8>,
) -> (r: Option<(ClientFormatAny, Vec<u8>)>)
    requires
        format matches ClientFormatAny::ClientFormat(cf) ==> data@.len() == rect_w * rect_h
            * cf.spec_size(),
        format.spec_is_compressed() ==> data@.len() == blocks_on_axis(rect_w as nat)
            * blocks_on_axis(rect_h as nat) * spec_payload_block_bytes(format),
    ensures
        spec_tracked(r) == spec_tracked_after_write(
            spec_tracked(store.data),
            store.width,
            store.height,
            store.planes,
            store.internal_format,
            0,
            x0,
            y0,
            rect_w,
            rect_h,
            format,
            data@,
        ),
{
    let store_width: u32 = store.width;
    let store_height: u32 = store.height;
    let planes: u32 = store.planes;
    match format {
        ClientFormatAny::ClientFormat(cf) => {
            if store.internal_format.is_compressed() {
                return None;
            }
            let rgba: Vec<u8> = match crate::format::normalize_rgba8(cf, data) {
                Some(v) => v,
                None => {
                    return None;
                },
            };
            proof {
                assert(rgba@.len() == rect_w * rect_h * 4) by (nonlinear_arith)
                    requires
                        cf.spec_size() >= 1,
                        data@.len() == rect_w * rect_h * cf.spec_size(),
                        rgba@.len() == (data@.len() as int / (cf.spec_size() as int)) * 4,
                ;
            }
            if planes == 1 && x0 == 0 && y0 == 0 && rect_w == store_width && rect_h
                == store_height {
                return Some((ClientFormatAny::ClientFormat(ClientFormat::U8U8U8U8), rgba));
            }
            let can_splice: bool = match &store.data {
                Some(p) => {
                    let uncompressed: bool = matches!(p.0, ClientFormatAny::ClientFormat(_));
                    uncompressed && planes == 1 && store_width > 0 && store_height > 0 && rect_w
                        <= store_width && x0 <= store_width - rect_w && rect_h <= store_height
                        && y0 <= store_height - rect_h && exact_plane_len(
                        p.1.len(),
                        store_width,
                        store_height,
                        4,
                    )
                },
                None => false,
            };
            if can_splice {
                let base: Vec<u8> = copy_bytes(&store.data.as_ref().unwrap().1);
                proof {
                    assert((x0 + rect_w) * 4 <= store_width * 4 && (y0 + rect_h) * (store_width
                        * 4) <= store_width * store_height * 4 && x0 * 4 + rect_w * 4
                        <= store_width * 4 && store_width * 4 <= store_width * store_height * 4
                        && x0 * 4 <= store_width * 4 && rect_w * 4 <= store_width * 4
                        && rgba@.len() == (rect_w * 4) * rect_h) by (nonlinear_arith)
                        requires
                            store_width > 0,
                            store_height > 0,
                            x0 + rect_w <= store_width,
                            y0 + rect_h <= store_height,
                            rgba@.len() == rect_w * rect_h * 4,
                    ;
                }
                let spliced: Vec<u8> = splice_bytes(
                    base,
                    store_width as usize * 4,
                    x0 as usize * 4,
                    y0 as usize,
                    rect_w as usize * 4,
                    rect_h as usize,
                    &rgba,
                );
                Some((ClientFormatAny::ClientFormat(ClientFormat::U8U8U8U8), spliced))
            } else {
                None
            }
        },
        _ => {
            let bb: usize = match format {
                ClientFormatAny::CompressedFormat(f) => f.block_bytes(),
                ClientFormatAny::CompressedSrgbFormat(f) => f.block_bytes(),
                _ => 1,
            };
            if planes == 1 && x0 == 0 && y0 == 0 && rect_w == store_width && rect_h
                == store_height {
                return Some((format, copy_bytes(data)));
            }
            let bw: usize = crate::format::blocks(store_width);
            let bh: usize = crate::format::blocks(store_height);
            let rbw: usize = crate::format::blocks(rect_w);
            let rbh: usize = crate::format::blocks(rect_h);
            let can_splice: bool = match &store.data {
                Some(p) => {
                    p.0 == format && planes == 1 && store_width > 0 && store_height > 0 && x0 % 4
                        == 0 && y0 % 4 == 0 && (x0 as usize) / 4 + rbw <= bw && (y0 as usize) / 4
                        + rbh <= bh && exact_volume_len(p.1.len(), bw, bh, bb)
                },
                None => false,
            };
            if can_splice {
                let base: Vec<u8> = copy_bytes(&store.data.as_ref().unwrap().1);
                proof {
                    assert(bh >= 1 && bw >= 1) by {
                        assert(store_width >= 1 && store_height >= 1);
                    }
                    assert(((x0 as int) / 4 + rbw) * bb <= bw * bb && ((y0 as int) / 4 + rbh) * (
                    bw * bb) <= bh * (bw * bb) && ((x0 as int) / 4) * bb + rbw * bb <= bw * bb
                        && bw * bb <= bh * (bw * bb) && ((x0 as int) / 4) * bb <= bw * bb && rbw
                        * bb <= bw * bb && bh * (bw * bb) == bw * bh * bb && bw * bb >= 1
                        && data@.len() == (rbw * bb) * rbh) by (nonlinear_arith)
                        requires
                            bw >= 1,
                            bh >= 1,
                            bb >= 1,
                            (x0 as int) / 4 + rbw <= bw,
                            (y0 as int) / 4 + rbh <= bh,
                            data@.len() == rbw * rbh * bb,
                    ;
                    assert(base@.len() == bw * bh * bb);
                }
                let spliced: Vec<u8> = splice_bytes(
                    base,
                    bw * bb,
                    (x0 as usize / 4) * bb,
                    y0 as usize / 4,
                    rbw * bb,
                    rbh,
                    data,
                );
                Some((format, spliced))
            } else {
                None
            }
        },
    }
}

/// Tests that a byte length is exactly `width * height * per_pixel`.
fn exact_plane_len(len: usize, width: u32, height: u32, per_pixel: usize) -> (r: bool)
    ensures
        r == (len == width * height * per_pixel),
{
    if width == 0 || height == 0 || per_pixel == 0 {
        proof {
            assert((width * height * per_pixel) == 0 || !(width == 0 || height == 0 || per_pixel
                == 0)) by (nonlinear_arith);
        }
        return len == 0;
    }
    if !(len % per_pixel == 0) {
        proof {
            assert((width as int * height as int * per_pixel as int) % (per_pixel as int) == 0) by (nonlinear_arith)
                requires
                    per_pixel > 0,
            ;
        }
        return false;
    }
    let pixels: usize = len / per_pixel;
    proof {
        assert(len == width * height * per_pixel <==> pixels == width * height) by (
        nonlinear_arith)
            requires
                per_pixel > 0,
                len % per_pixel == 0,
                pixels == len / per_pixel,
        ;
    }
    if !(pixels % width as usize == 0) {
        proof {
            assert((width as int * height as int) % (width as int) == 0) by (nonlinear_arith)
                requires
                    width > 0,
            ;
        }
        return false;
    }
    let rows: usize = pixels / width as usize;
    proof {
        assert(pixels == width * height <==> rows == height) by (nonlinear_arith)
            requires
                width > 0,
                pixels % width as usize == 0,
                rows == pixels / width as usize,
        ;
    }
    rows == height as usize
}

/// Tests that a byte length is exactly `a * b * c`.
fn exact_volume_len(len: usize, a: usize, b: usize, c: usize) -> (r: bool)
    ensures
        r == (len == a * b * c),
{
    if a == 0 || b == 0 || c == 0 {
        proof {
            assert((a * b * c) == 0 || !(a == 0 || b == 0 || c == 0)) by (nonlinear_arith);
        }
        return len == 0;
    }
    if !(len % c == 0) {
        proof {
            assert((a as int * b as int * c as int) % (c as int) == 0) by (nonlinear_arith)
                requires
                    c > 0,
            ;
        }
        return false;
    }
    let q: usize = len / c;
    proof {
        assert(len == a * b * c <==> q == a * b) by (nonlinear_arith)
            requires
                c > 0,
                len % c == 0,
                q == len / c,
        ;
    }
    if !(q % a == 0) {
        proof {
            assert((a as int * b as int) % (a as int) == 0) by (nonlinear_arith)
                requires
                    a > 0,
            ;
        }
        return false;
    }
    let rows: usize = q / a;
    proof {
        assert(q == a * b <==> rows == b) by (nonlinear_arith)
            requires
                a > 0,
                q % a == 0,
                rows == q / a,
        ;
    }
    rows == b
}

/// Replaces the tracked contents of one storage slot.
fn replace_tracked(ctxt: &mut Context, idx: usize, new_data: Option<(ClientFormatAny, Vec<u8>)>)
    requires
        old(ctxt).wf(),
        idx < old(ctxt).textures@.len(),
    ensures
        final(ctxt).wf(),
        final(ctxt).caps == old(ctxt).caps,
        final(ctxt).state == old(ctxt).state,
        final(ctxt).issued == old(ctxt).issued,
        final(ctxt).next_texture_id == old(ctxt).next_texture_id,
        final(ctxt).next_buffer_id == old(ctxt).next_buffer_id,
        final(ctxt).fbo_cache == old(ctxt).fbo_cache,
        final(ctxt).textures@ == old(ctxt).textures@.update(
            idx as int,
            TextureStore { data: new_data, ..old(ctxt).textures@[idx as int] },
        ),
{
    let id: u32 = ctxt.textures[idx].id;
    let internal_format: InternalFormat = ctxt.textures[idx].internal_format;
    let width: u32 = ctxt.textures[idx].width;
    let height: u32 = ctxt.textures[idx].height;
    let planes: u32 = ctxt.textures[idx].planes;
    ctxt.textures.set(
        idx,
        TextureStore { id, internal_format, width, height, planes, data: new_data },
    );
    proof {
        assert forall|i: int| 0 <= i < ctxt.textures@.len() implies (#[trigger] ctxt.textures@[i].id)
            != 0 && ctxt.textures@[i].id < ctxt.next_texture_id by {
            assert(ctxt.textures@[i].id == old(ctxt).textures@[i].id);
        }
        assert forall|i: int, j: int|
            0 <= i < ctxt.textures@.len() && 0 <= j < ctxt.textures@.len() && i != j implies (
        #[trigger] ctxt.textures@[i].id) != (#[trigger] ctxt.textures@[j].id) by {
            assert(ctxt.textures@[i].id == old(ctxt).textures@[i].id);
            assert(ctxt.textures@[j].id == old(ctxt).textures@[j].id);
        }
    }
}

/// A driver-side transfer buffer that a readback was staged into; the
/// caller must synchronize before consuming its contents.
#[derive(Copy, Clone, PartialEq, Eq, Structural, Debug)]
pub struct PixelBuffer {
    pub id: u32,
    pub len: usize,
}

/// The regular readback of a texture's base level: the first
/// `read_width` by `read_height` pixels — layer zero of an array, the
/// first plane of a three-dimensional texture — in the four-channel
/// eight-bit encoding the model keeps tracked uncompressed contents
/// normalized to. Contents the model does not hold — never defined,
/// floating-point encoded, compressed, or incoherent with the level's
/// size — give `None`.
pub open spec fn spec_read_result(
    read_width: u32,
    read_height: u32,
    store_width: u32,
    store_height: u32,
    planes: u32,
    contents: Option<(ClientFormatAny, Seq<u8>)>,
) -> Option<Seq<u8>> {
    match contents {
        Some((ClientFormatAny::ClientFormat(_), b)) => {
            if planes >= 1 && read_width == store_width && read_height <= store_height && b.len()
                == store_width * store_height * planes * 4 && read_width * read_height * 4
                <= usize::MAX {
                Some(b.subrange(0, (read_width * read_height * 4) as int))
            } else {
                None
            }
        },
        _ => None,
    }
}

/// The view of an optional byte vector.
pub open spec fn spec_opt_bytes(r: Option<Vec<u8>>) -> Option<Seq<u8>> {
    match r {
        Some(b) => Some(b@),
        None => None,
    }
}

impl TextureAny {
    /// Reads the content of a mipmap level of the texture as tightly
    /// packed four-channel eight-bit pixels — the first
    /// width-by-height plane for textures with several planes.
    ///
    /// Only the base level can be read; asking for another level is a
    /// precondition violation, not a silent read of the base level. The
    /// engine forces byte-granular pack alignment and unbinds any
    /// pixel-pack buffer before the transfer. The result is the tracked
    /// contents of the level, which the engine keeps normalized to this
    /// encoding on every write; contents the model does not hold
    /// (never defined, floating-point encoded, or compressed) give
    /// `None`.
    pub fn read(&self, ctxt: &mut Context, level: u32) -> (r: Option<Vec<u8>>)
        requires
            old(ctxt).wf(),
            level == 0,
        ensures
            final(ctxt).wf(),
            final(ctxt).caps == old(ctxt).caps,
            final(ctxt).next_texture_id == old(ctxt).next_texture_id,
            final(ctxt).next_buffer_id == old(ctxt).next_buffer_id,
            final(ctxt).fbo_cache == old(ctxt).fbo_cache,
            final(ctxt).textures == old(ctxt).textures,
            final(ctxt).state.pack_alignment == 1,
            final(ctxt).state.pixel_pack_buffer == 0,
            final(ctxt).state.unpack_alignment == old(ctxt).state.unpack_alignment,
            final(ctxt).state.pixel_unpack_buffer == old(ctxt).state.pixel_unpack_buffer,
            final(ctxt).state.active_texture == old(ctxt).state.active_texture,
            final(ctxt).state.texture_units == old(ctxt).state.texture_units,
            final(ctxt).issued@ == old(ctxt).issued@ + crate::context::spec_pack_preamble(
                old(ctxt).state,
            ) + seq![
                GlCommand::ReadPixelsIntoHost {
                    texture: self.id,
                    layer: 0,
                    level: 0,
                    width: self.width,
                    height: spec_or1(self.height),
                },
            ],
            spec_opt_bytes(r) == (if old(ctxt).spec_has_texture(self.id) {
                spec_read_result(
                    self.width,
                    spec_or1(self.height),
                    old(ctxt).spec_texture(self.id).width,
                    old(ctxt).spec_texture(self.id).height,
                    old(ctxt).spec_texture(self.id).planes,
                    spec_tracked(old(ctxt).spec_texture(self.id).data),
                )
            } else {
                None::<Seq<u8>>
            }),
    {
        ctxt.prepare_pack();
        ctxt.issued.push(
            GlCommand::ReadPixelsIntoHost {
                texture: self.id,
                layer: 0,
                level: 0,
                width: self.width,
                height: self.height.unwrap_or(1),
            },
        );
        let idx: usize = match ctxt.find_texture(self.id) {
            Some(i) => i,
            None => {
                return None;
            },
        };
        let store_width: u32 = ctxt.textures[idx].width;
        let store_height: u32 = ctxt.textures[idx].height;
        let planes: u32 = ctxt.textures[idx].planes;
        let read_height: u32 = self.height.unwrap_or(1);
        match &ctxt.textures[idx].data {
            Some(p) => {
                match p.0 {
                    ClientFormatAny::ClientFormat(_) => {
                        if planes == 0 || self.width != store_width || read_height > store_height {
                            return None;
                        }
                        if p.1.len() % 4 != 0 {
                            proof {
                                assert((store_width as int * store_height as int * planes as int
                                    * 4) % 4 == 0) by (nonlinear_arith);
                            }
                            return None;
                        }
                        let pixels: usize = p.1.len() / 4;
                        let volume_ok: bool = exact_volume_len(
                            pixels,
                            store_width as usize,
                            store_height as usize,
                            planes as usize,
                        );
                        proof {
                            assert(p.1@.len() == store_width * store_height * planes * 4 <==> (
                            pixels == store_width * store_height * planes)) by (nonlinear_arith)
                                requires
                                    p.1@.len() % 4 == 0,
                                    pixels == p.1@.len() as int / 4,
                            ;
                        }
                        if !volume_ok {
                            return None;
                        }
                        proof {
                            assert(store_width * read_height * 4 <= p.1@.len() && store_width
                                as int * read_height as int <= p.1@.len()) by (nonlinear_arith)
                                requires
                                    planes >= 1,
                                    read_height <= store_height,
                                    p.1@.len() == store_width * store_height * planes * 4,
                            ;
                        }
                        let out_len: usize = (store_width as usize) * (read_height as usize) * 4;
                        Some(copy_prefix(&p.1, out_len))
                    },
                    _ => None,
                }
            },
            None => None,
        }
    }
}

impl TextureAny {
    /// Stages the content of a mipmap level into a fresh driver-side
    /// transfer buffer and returns at once; no fence or wait is
    /// inserted, and the buffer stays bound for pixel pack.
    ///
    /// Only the base level can be staged; asking for another level is a
    /// precondition violation.
    pub fn read_to_pixel_buffer(&self, ctxt: &mut Context, level: u32) -> (r: PixelBuffer)
        requires
            old(ctxt).wf(),
            level == 0,
            self.width * spec_or1(self.height) * 4 <= usize::MAX,
            old(ctxt).next_buffer_id < u32::MAX,
        ensures
            final(ctxt).wf(),
            r.id == old(ctxt).next_buffer_id,
            r.len == self.width * spec_or1(self.height) * 4,
            final(ctxt).caps == old(ctxt).caps,
            final(ctxt).next_texture_id == old(ctxt).next_texture_id,
            final(ctxt).next_buffer_id == old(ctxt).next_buffer_id + 1,
            final(ctxt).fbo_cache == old(ctxt).fbo_cache,
            final(ctxt).textures == old(ctxt).textures,
            final(ctxt).state.pixel_pack_buffer == r.id,
            final(ctxt).state.pack_alignment == old(ctxt).state.pack_alignment,
            final(ctxt).state.unpack_alignment == old(ctxt).state.unpack_alignment,
            final(ctxt).state.pixel_unpack_buffer == old(ctxt).state.pixel_unpack_buffer,
            final(ctxt).state.active_texture == old(ctxt).state.active_texture,
            final(ctxt).state.texture_units == old(ctxt).state.texture_units,
            final(ctxt).issued@ == old(ctxt).issued@ + seq![
                GlCommand::GenPixelBuffer { id: r.id, len: r.len },
                GlCommand::ReadPixelsIntoBuffer {
                    texture: self.id,
                    layer: 0,
                    level: 0,
                    width: self.width,
                    height: spec_or1(self.height),
                    buffer: r.id,
                },
            ],
    {
        let h: u32 = self.height.unwrap_or(1);
        proof {
            assert(self.width as int * h as int <= self.width as int * h as int * 4) by (
            nonlinear_arith);
        }
        let len: usize = (self.width as usize) * (h as usize) * 4;
        let id: u32 = ctxt.next_buffer_id;
        ctxt.next_buffer_id = id + 1;
        ctxt.issued.push(GlCommand::GenPixelBuffer { id, len });
        ctxt.issued.push(
            GlCommand::ReadPixelsIntoBuffer {
                texture: self.id,
                layer: 0,
                level: 0,
                width: self.width,
                height: h,
                buffer: id,
            },
        );
        ctxt.state.pixel_pack_buffer = id;
        PixelBuffer { id, len }
    }
}

/// The compressed readback of a texture's base level: the stored
/// payload under its recognized standard compressed format. An internal
/// format that is not a recognized standard compressed format — not
/// compressed at all, or a generic compression the driver chose — gives
/// `None` (a defined "no data" outcome), as do contents the model does
/// not track under that exact format.
pub open spec fn spec_download_result(
    internal: InternalFormat,
    contents: Option<(ClientFormatAny, Seq<u8>)>,
) -> Option<(ClientFormatAny, Seq<u8>)> {
    match internal.spec_compressed_client_format() {
        Some(fmt) => match contents {
            Some((f2, b)) => if f2 == fmt {
                Some((fmt, b))
            } else {
                None
            },
            None => None,
        },
        None => None,
    }
}

/// The view of an optional compressed payload.
pub open spec fn spec_opt_payload(r: Option<(ClientFormatAny, Vec<u8>)>) -> Option<
    (ClientFormatAny, Seq<u8>),
> {
    match r {
        Some(p) => Some((p.0, p.1@)),
        None => None,
    }
}

/// Reads the content of a texture level back without decompressing it.
///
/// The texture is bound first; when data is returned, the engine forces
/// byte-granular pack alignment and unbinds any pixel-pack buffer
/// before the transfer. `None` is the defined "no data" outcome: the
/// driver-stored internal format is not a recognized standard
/// compressed format, or the model holds no payload for the level —
/// the payloads of levels above the base live only driver-side, so
/// only the base level's payload can be reported, and an undefined
/// base reports none.
pub fn download_compressed_data(mip: &TextureAnyMipmap<'_>, ctxt: &mut Context) -> (r: Option<
    (ClientFormatAny, Vec<u8>),
>)
    requires
        old(ctxt).wf(),
        mip.wf(),
    ensures
        final(ctxt).wf(),
        final(ctxt).caps == old(ctxt).caps,
        final(ctxt).next_texture_id == old(ctxt).next_texture_id,
        final(ctxt).next_buffer_id == old(ctxt).next_buffer_id,
        final(ctxt).fbo_cache == old(ctxt).fbo_cache,
        final(ctxt).textures == old(ctxt).textures,
        final(ctxt).state.unpack_alignment == old(ctxt).state.unpack_alignment,
        final(ctxt).state.pixel_unpack_buffer == old(ctxt).state.pixel_unpack_buffer,
        final(ctxt).state.active_texture == old(ctxt).state.active_texture,
        final(ctxt).state.texture_units@ == old(ctxt).state.texture_units@.update(
            old(ctxt).state.active_texture as int,
            mip.texture.id,
        ),
        spec_opt_payload(r) == (if mip.level == 0 && old(ctxt).spec_has_texture(mip.texture.id) {
            spec_download_result(
                old(ctxt).spec_texture(mip.texture.id).internal_format,
                spec_tracked(old(ctxt).spec_texture(mip.texture.id).data),
            )
        } else {
            None::<(ClientFormatAny, Seq<u8>)>
        }),
        r is Some ==> {
            &&& final(ctxt).state.pack_alignment == 1
            &&& final(ctxt).state.pixel_pack_buffer == 0
            &&& final(ctxt).issued@ == old(ctxt).issued@ + seq![
                GlCommand::BindTexture(mip.texture.ty, mip.texture.id),
            ] + crate::context::spec_pack_preamble(old(ctxt).state) + seq![
                GlCommand::GetCompressedTexImage {
                    target: mip.texture.ty,
                    level: 0,
                    data_len: (r->0).1@.len() as usize,
                },
            ]
        },
        r is None ==> {
            &&& final(ctxt).state.pack_alignment == old(ctxt).state.pack_alignment
            &&& final(ctxt).state.pixel_pack_buffer == old(ctxt).state.pixel_pack_buffer
            &&& final(ctxt).issued@ == old(ctxt).issued@ + seq![
                GlCommand::BindTexture(mip.texture.ty, mip.texture.id),
            ]
        },
{
    ctxt.bind_texture(mip.texture.ty, mip.texture.id);
    if mip.level != 0 {
        return None;
    }
    let idx: usize = match ctxt.find_texture(mip.texture.id) {
        Some(i) => i,
        None => {
            return None;
        },
    };
    let recognized: ClientFormatAny = match ctxt.textures[idx].internal_format
        .compressed_client_format() {
        Some(f) => f,
        None => {
            return None;
        },
    };
    let payload_matches: bool = match &ctxt.textures[idx].data {
        Some(p) => p.0 == recognized,
        None => false,
    };
    if !payload_matches {
        return None;
    }
    ctxt.prepare_pack();
    let bytes: Vec<u8> = match &ctxt.textures[idx].data {
        Some(p) => copy_bytes(&p.1),
        None => Vec::new(),
    };
    ctxt.issued.push(
        GlCommand::GetCompressedTexImage {
            target: mip.texture.ty,
            level: 0,
            data_len: bytes.len(),
        },
    );
    proof {
        assert(ctxt.issued@ =~= old(ctxt).issued@ + seq![
            GlCommand::BindTexture(mip.texture.ty, mip.texture.id),
        ] + crate::context::spec_pack_preamble(old(ctxt).state) + seq![
            GlCommand::GetCompressedTexImage {
                target: mip.texture.ty,
                level: 0,
                data_len: bytes@.len() as usize,
            },
        ]);
    }
    Some((recognized, bytes))
}

/// Round trip: writing a region that covers the whole base level of an
/// uncompressed texture in the four-channel eight-bit encoding and then
/// reading the level back yields the written bytes unchanged.
pub proof fn lemma_write_read_roundtrip(
    contents: Option<(ClientFormatAny, Seq<u8>)>,
    internal: InternalFormat,
    width: u32,
    height: u32,
    data: Seq<u8>,
)
    requires
        !internal.spec_is_compressed(),
        data.len() == width * height * 4,
        data.len() <= usize::MAX,
    ensures
        spec_read_result(
            width,
            height,
            width,
            height,
            1,
            spec_tracked_after_write(
                contents,
                width,
                height,
                1,
                internal,
                0,
                0,
                0,
                width,
                height,
                ClientFormatAny::ClientFormat(ClientFormat::U8U8U8U8),
                data,
            ),
        ) == Some(data),
{
    assert(data.len() % 4 == 0 && width * height * 1 * 4 == width * height * 4) by (
    nonlinear_arith)
        requires
            data.len() == width * height * 4,
    ;
    crate::format::lemma_rgba8_normalize_identity(data);
    assert((data.len() as int / 4) * 4 == data.len()) by (nonlinear_arith)
        requires
            data.len() % 4 == 0,
    ;
    assert(spec_normalized_or_none(ClientFormat::U8U8U8U8, data) == Some(data));
    let written = spec_tracked_after_write(
        contents,
        width,
        height,
        1,
        internal,
        0,
        0,
        0,
        width,
        height,
        ClientFormatAny::ClientFormat(ClientFormat::U8U8U8U8),
        data,
    );
    assert(written == Some((ClientFormatAny::ClientFormat(ClientFormat::U8U8U8U8), data)));
    assert(data.subrange(0, (width * height * 4) as int) =~= data);
}

/// Copies the first `n` bytes of a byte vector.
fn copy_prefix(src: &Vec<u8>, n: usize) -> (r: Vec<u8>)
    requires
        n <= src@.len(),
    ensures
        r@ == src@.subrange(0, n as int),
{
    let mut out: Vec<u8> = Vec::new();
    let mut i: usize = 0;
    while i < n
        invariant
            i <= n,
            n <= src@.len(),
            out@ == src@.subrange(0, i as int),
        decreases n - i,
    {
        out.push(src[i]);
        proof {
            assert(out@ =~= src@.subrange(0, i + 1));
        }
        i = i + 1;
    }
    out
}

/// Copies a byte vector.
fn copy_bytes(src: &Vec<u8>) -> (r: Vec<u8>)
    ensures
        r@ == src@,
{
    let mut out: Vec<u8> = Vec::new();
    let mut i: usize = 0;
    while i < src.len()
        invariant
            i <= src@.len(),
            out@ == src@.subrange(0, i as int),
        decreases src@.len() - i,
    {
        out.push(src[i]);
        proof {
            assert(out@ =~= src@.subrange(0, i + 1));
        }
        i = i + 1;
    }
    proof {
        assert(src@.subrange(0, src@.len() as int) =~= src@);
    }
    out
}

/// Splices the packed rows of `data` into a rectangular region of
/// `base`, which consists of rows of `row_len` bytes.
fn splice_bytes(
    base: Vec<u8>,
    row_len: usize,
    x0: usize,
    y0: usize,
    rect_w: usize,
    rect_h: usize,
    data: &Vec<u8>,
) -> (r: Vec<u8>)
    requires
        row_len > 0,
        x0 + rect_w <= row_len,
        (y0 + rect_h) * row_len <= base@.len(),
        data@.len() == rect_w * rect_h,
    ensures
        r@ == spec_spliced(
            base@,
            row_len as nat,
            x0 as nat,
            y0 as nat,
            rect_w as nat,
            rect_h as nat,
            data@,
        ),
{
    let ghost base0: Seq<u8> = base@;
    let ghost goal: Seq<u8> = spec_spliced(
        base@,
        row_len as nat,
        x0 as nat,
        y0 as nat,
        rect_w as nat,
        rect_h as nat,
        data@,
    );
    let mut out: Vec<u8> = base;
    let total_len: usize = out.len();
    let data_len: usize = data.len();
    let mut r: usize = 0;
    proof {
        vstd::arithmetic::mul::lemma_mul_inequality(
            (y0 + rect_h) as int,
            (y0 + rect_h) as int,
            row_len as int,
        );
    }
    while r < rect_h
        invariant
            r <= rect_h,
            base0.len() == total_len,
            data@.len() == data_len,
            row_len > 0,
            x0 + rect_w <= row_len,
            (y0 + rect_h) * row_len <= base0.len(),
            data@.len() == rect_w * rect_h,
            out@.len() == base0.len(),
            goal == spec_spliced(
                base0,
                row_len as nat,
                x0 as nat,
                y0 as nat,
                rect_w as nat,
                rect_h as nat,
                data@,
            ),
            forall|i: int|
                0 <= i < base0.len() ==> (#[trigger] out@[i]) == (if i / (row_len as int) < y0 + r {
                    goal[i]
                } else {
                    base0[i]
                }),
        decreases rect_h - r,
    {
        let mut c: usize = 0;
        proof {
            assert((y0 + r) * row_len + row_len <= base0.len()) by (nonlinear_arith)
                requires
                    r < rect_h,
                    (y0 + rect_h) * row_len <= base0.len(),
                    row_len > 0,
            ;
            assert((r * rect_w) + rect_w <= data@.len()) by (nonlinear_arith)
                requires
                    r < rect_h,
                    data@.len() == rect_w * rect_h,
            ;
        }
        while c < rect_w
            invariant
                c <= rect_w,
                r < rect_h,
                base0.len() == total_len,
                data@.len() == data_len,
                row_len > 0,
                x0 + rect_w <= row_len,
                (y0 + rect_h) * row_len <= base0.len(),
                (y0 + r) * row_len + row_len <= base0.len(),
                (r * rect_w) + rect_w <= data@.len(),
                data@.len() == rect_w * rect_h,
                out@.len() == base0.len(),
                goal == spec_spliced(
                    base0,
                    row_len as nat,
                    x0 as nat,
                    y0 as nat,
                    rect_w as nat,
                    rect_h as nat,
                    data@,
                ),
                forall|i: int|
                    0 <= i < base0.len() ==> (#[trigger] out@[i]) == (if i / (row_len as int) < y0 + r
                        || (i / (row_len as int) == y0 + r && x0 <= i % (row_len as int) < x0 + c) {
                        goal[i]
                    } else {
                        base0[i]
                    }),
            decreases rect_w - c,
        {
            proof {
                assert((y0 + r) <= (y0 + r) * row_len && (y0 + r) * row_len + x0 + c
                    < base0.len()) by (nonlinear_arith)
                    requires
                        row_len > 0,
                        (y0 + r) * row_len + row_len <= base0.len(),
                        x0 + c < row_len,
                ;
            }
            let dst: usize = (y0 + r) * row_len + x0 + c;
            let src: usize = r * rect_w + c;
            proof {
                assert(dst < base0.len());
                assert(dst as int / (row_len as int) == y0 + r && dst as int % (row_len as int) == x0 + c) by (
                nonlinear_arith)
                    requires
                        dst == (y0 + r) * row_len + x0 + c,
                        row_len > 0,
                        x0 + c < row_len,
                ;
                assert(goal[dst as int] == data@[src as int]);
            }
            out.set(dst, data[src]);
            proof {
                assert forall|i: int|
                    0 <= i < base0.len() implies (#[trigger] out@[i]) == (if i / (row_len as int) < y0
                    + r || (i / (row_len as int) == y0 + r && x0 <= i % (row_len as int) < x0 + c + 1) {
                    goal[i]
                } else {
                    base0[i]
                }) by {
                    if i != dst as int {
                        if i / (row_len as int) == y0 + r && i % (row_len as int) == x0 + c {
                            assert(i == (y0 + r) * (row_len as int) + x0 + c) by (nonlinear_arith)
                                requires
                                    i / (row_len as int) == y0 + r,
                                    i % (row_len as int) == x0 + c,
                                    row_len > 0,
                            ;
                        }
                    }
                }
            }
            c = c + 1;
        }
        r = r + 1;
        proof {
            assert forall|i: int|
                0 <= i < base0.len() implies (#[trigger] out@[i]) == (if i / (row_len as int) < y0 + r {
                goal[i]
            } else {
                base0[i]
            }) by {
                if i / (row_len as int) == y0 + r - 1 {
                    if x0 <= i % (row_len as int) < x0 + rect_w {
                    } else {
                        assert(goal[i] == base0[i]);
                    }
                }
            }
        }
    }
    proof {
        assert forall|i: int| 0 <= i < base0.len() implies out@[i] == goal[i] by {
            if i / (row_len as int) >= y0 + rect_h {
                assert(goal[i] == base0[i]);
            }
        }
        assert(out@ =~= goal);
    }
    out
}

} // verus!
