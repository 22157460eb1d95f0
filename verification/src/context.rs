//! The shared driver context: the capability snapshot consulted by format
//! negotiation, the global pixel-store and binding state that every
//! operation must re-establish rather than assume, the modelled
//! driver-resident texture storage, and the stream of driver commands the
//! engine issues.

use vstd::prelude::*;

use crate::format::{ClientFormatAny, InternalFormat, TransferParams};
use crate::texture::TextureType;
use crate::version::{Api, Version};

verus! {

/// Extension flags consulted by the texture layer.
#[derive(Copy, Clone, PartialEq, Eq, Structural, Debug)]
pub struct Extensions {
    pub gl_arb_texture_non_power_of_two: bool,
    pub gl_arb_texture_storage: bool,
    pub gl_arb_texture_multisample: bool,
    pub gl_ext_framebuffer_object: bool,
    pub gl_ext_texture_compression_s3tc: bool,
    pub gl_ext_texture_srgb: bool,
    pub gl_ext_texture_integer: bool,
    pub gl_arb_depth_texture: bool,
    pub gl_ext_packed_depth_stencil: bool,
    pub gl_arb_texture_stencil8: bool,
    pub gl_arb_texture_float: bool,
}

impl Extensions {
    /// A snapshot with every extension absent.
    pub fn none() -> (r: Extensions)
        ensures
            r == (Extensions {
                gl_arb_texture_non_power_of_two: false,
                gl_arb_texture_storage: false,
                gl_arb_texture_multisample: false,
                gl_ext_framebuffer_object: false,
                gl_ext_texture_compression_s3tc: false,
                gl_ext_texture_srgb: false,
                gl_ext_texture_integer: false,
                gl_arb_depth_texture: false,
                gl_ext_packed_depth_stencil: false,
                gl_arb_texture_stencil8: false,
                gl_arb_texture_float: false,
            }),
    {
        Extensions {
            gl_arb_texture_non_power_of_two: false,
            gl_arb_texture_storage: false,
            gl_arb_texture_multisample: false,
            gl_ext_framebuffer_object: false,
            gl_ext_texture_compression_s3tc: false,
            gl_ext_texture_srgb: false,
            gl_ext_texture_integer: false,
            gl_arb_depth_texture: false,
            gl_ext_packed_depth_stencil: false,
            gl_arb_texture_stencil8: false,
            gl_arb_texture_float: false,
        }
    }
}

/// The driver version and extension flags consulted during format
/// negotiation and capability checks; read-only to this layer.
#[derive(Copy, Clone, PartialEq, Eq, Structural, Debug)]
pub struct CapabilitySnapshot {
    pub version: Version,
    pub extensions: Extensions,
}

impl CapabilitySnapshot {
    /// Preallocated immutable storage is available.
    pub open spec fn spec_storage_supported(self) -> bool {
        self.version.spec_at_least(Api::Gl, 4, 2) || self.extensions.gl_arb_texture_storage
    }

    /// Preallocated immutable storage is available.
    pub fn storage_supported(&self) -> (r: bool)
        ensures
            r == self.spec_storage_supported(),
    {
        self.version.at_least(Api::Gl, 4, 2) || self.extensions.gl_arb_texture_storage
    }

    /// Multisample textures are available.
    pub open spec fn spec_multisample_supported(self) -> bool {
        self.version.spec_at_least(Api::Gl, 3, 2) || self.extensions.gl_arb_texture_multisample
    }

    /// Multisample textures are available.
    pub fn multisample_supported(&self) -> (r: bool)
        ensures
            r == self.spec_multisample_supported(),
    {
        self.version.at_least(Api::Gl, 3, 2) || self.extensions.gl_arb_texture_multisample
    }

    /// Mipmap regeneration is available (core, embedded, or through the
    /// framebuffer-object extension).
    pub open spec fn spec_regen_supported(self) -> bool {
        self.version.spec_at_least(Api::Gl, 3, 0) || self.version.spec_at_least(Api::GlEs, 2, 0)
            || self.extensions.gl_ext_framebuffer_object
    }

    /// Mipmap regeneration is available.
    pub fn regen_supported(&self) -> (r: bool)
        ensures
            r == self.spec_regen_supported(),
    {
        self.version.at_least(Api::Gl, 3, 0) || self.version.at_least(Api::GlEs, 2, 0)
            || self.extensions.gl_ext_framebuffer_object
    }

    /// The driver restricts texture dimensions to powers of two.
    pub open spec fn spec_npot_restricted(self) -> bool {
        !self.version.spec_at_least(Api::Gl, 2, 0)
            && !self.extensions.gl_arb_texture_non_power_of_two
    }

    /// The driver restricts texture dimensions to powers of two.
    pub fn npot_restricted(&self) -> (r: bool)
        ensures
            r == self.spec_npot_restricted(),
    {
        !self.version.at_least(Api::Gl, 2, 0) && !self.extensions.gl_arb_texture_non_power_of_two
    }

    /// The driver can report the actual internal format of a texture.
    pub open spec fn spec_format_query_supported(self) -> bool {
        self.version.api == Api::Gl || self.version.spec_at_least(Api::GlEs, 3, 1)
    }

    /// The driver can report the actual internal format of a texture.
    pub fn format_query_supported(&self) -> (r: bool)
        ensures
            r == self.spec_format_query_supported(),
    {
        self.version.api == Api::Gl || self.version.at_least(Api::GlEs, 3, 1)
    }
}

/// One driver call, as the engine sequences them.
///
/// The vocabulary is the library's own: an executor maps each command to
/// the corresponding driver entry point. Commands carrying a
/// dimensionality `target` stand for the 1D/2D/3D arity that the target
/// implies.
#[derive(Copy, Clone, PartialEq, Eq, Debug)]
#[allow(inconsistent_fields)]
pub enum GlCommand {
    /// Force the unpack alignment to the given byte granularity.
    SetUnpackAlignment(u32),
    /// Force the pack alignment to the given byte granularity.
    SetPackAlignment(u32),
    /// Unbind any pixel-unpack transfer buffer.
    UnbindPixelUnpackBuffer,
    /// Unbind any pixel-pack transfer buffer.
    UnbindPixelPackBuffer,
    /// Create the texture handle.
    GenTexture(u32),
    /// Bind the handle to the unit that is currently active.
    BindTexture(TextureType, u32),
    SetWrapSRepeat(TextureType),
    SetWrapTRepeat(TextureType),
    SetWrapRRepeat(TextureType),
    SetMagFilterLinear(TextureType),
    SetMinFilterLinearMipmapLinear(TextureType),
    SetMinFilterLinear(TextureType),
    SetBaseLevel(TextureType, u32),
    SetMaxLevel(TextureType, u32),
    /// Preallocated immutable storage for the whole mipmap chain.
    TexStorage {
        target: TextureType,
        levels: u32,
        format: InternalFormat,
        width: u32,
        height: u32,
        depth: u32,
    },
    /// One-step allocation, with data when `has_data` holds.
    TexImage {
        target: TextureType,
        format: InternalFormat,
        width: u32,
        height: u32,
        depth: u32,
        transfer: Option<TransferParams>,
        has_data: bool,
    },
    /// One-step allocation from a compressed payload.
    CompressedTexImage {
        target: TextureType,
        format: InternalFormat,
        width: u32,
        height: u32,
        depth: u32,
        data_len: usize,
    },
    /// Partial upload into an existing level.
    TexSubImage {
        target: TextureType,
        level: u32,
        x: u32,
        y: u32,
        z: u32,
        width: u32,
        height: u32,
        depth: u32,
        transfer: TransferParams,
        data_len: usize,
    },
    /// Partial upload of a compressed payload into an existing level.
    CompressedTexSubImage {
        target: TextureType,
        level: u32,
        x: u32,
        y: u32,
        z: u32,
        width: u32,
        height: u32,
        depth: u32,
        format: InternalFormat,
        data_len: usize,
    },
    /// Preallocated storage for a multisample texture.
    TexStorageMultisample {
        target: TextureType,
        samples: u32,
        format: InternalFormat,
        width: u32,
        height: u32,
        array_size: u32,
    },
    /// One-step allocation of a multisample texture.
    TexImageMultisample {
        target: TextureType,
        samples: u32,
        format: InternalFormat,
        width: u32,
        height: u32,
        array_size: u32,
    },
    /// Regenerate the mipmap chain from the base level.
    GenerateMipmap(TextureType),
    /// Regenerate the mipmap chain through the framebuffer-object
    /// extension.
    GenerateMipmapExt(TextureType),
    /// Ask the framebuffer collaborator to drop cached framebuffer
    /// objects referencing the handle.
    PurgeFramebuffers(u32),
    /// Release the texture handle.
    DeleteTexture(u32),
    /// Read a level's pixels into host memory through the framebuffer
    /// collaborator, as tightly packed four-channel bytes.
    ReadPixelsIntoHost { texture: u32, layer: u32, level: u32, width: u32, height: u32 },
    /// Create a driver-side transfer buffer of the given byte length.
    GenPixelBuffer { id: u32, len: usize },
    /// Stage a level's pixels into a transfer buffer; no synchronization
    /// is inserted.
    ReadPixelsIntoBuffer {
        texture: u32,
        layer: u32,
        level: u32,
        width: u32,
        height: u32,
        buffer: u32,
    },
    /// Read back a level's compressed payload.
    GetCompressedTexImage { target: TextureType, level: u32, data_len: usize },
}

/// Global driver state that operations depend on and must re-establish.
#[derive(Debug)]
pub struct GlState {
    /// Current unpack alignment (driver default is four).
    pub unpack_alignment: u32,
    /// Current pack alignment (driver default is four).
    pub pack_alignment: u32,
    /// Handle of the buffer bound for pixel unpack, zero for none.
    pub pixel_unpack_buffer: u32,
    /// Handle of the buffer bound for pixel pack, zero for none.
    pub pixel_pack_buffer: u32,
    /// Index of the active texture unit.
    pub active_texture: usize,
    /// Per-unit binding cache: the texture handle bound to each unit,
    /// zero for none.
    pub texture_units: Vec<u32>,
}

/// The modelled driver-resident storage of one texture.
#[derive(Debug)]
pub struct TextureStore {
    pub id: u32,
    /// The concrete internal format the driver stores, as negotiation
    /// chose it.
    pub internal_format: InternalFormat,
    /// Level-zero extent of the first axis.
    pub width: u32,
    /// Level-zero extent of the second addressable axis (height, or the
    /// array size for one-dimensional arrays), one when absent.
    pub height: u32,
    /// Number of width-by-height planes at level zero: the depth of a
    /// three-dimensional texture, the layer count of a two-dimensional
    /// array, one otherwise.
    pub planes: u32,
    /// Tracked level-zero contents, or `None` while the contents are
    /// undefined or not modelled. An uncompressed payload is kept
    /// normalized to the four-channel eight-bit encoding; a compressed
    /// payload is kept verbatim under its own encoding.
    pub data: Option<(ClientFormatAny, Vec<u8>)>,
}

/// The tracked contents of a texture, as client encoding plus byte
/// sequence.
pub open spec fn spec_tracked(data: Option<(ClientFormatAny, Vec<u8>)>) -> Option<
    (ClientFormatAny, Seq<u8>),
> {
    match data {
        Some(p) => Some((p.0, p.1@)),
        None => None,
    }
}

/// The shared driver context, modelled as an explicit value: capability
/// snapshot, mutable global state, driver-resident texture storage, the
/// framebuffer collaborator's cache, and the stream of issued commands.
#[derive(Debug)]
pub struct Context {
    pub caps: CapabilitySnapshot,
    pub state: GlState,
    /// Next fresh texture handle; handles are nonzero.
    pub next_texture_id: u32,
    /// Next fresh transfer-buffer handle; handles are nonzero.
    pub next_buffer_id: u32,
    /// Driver-resident textures, one entry per live handle.
    pub textures: Vec<TextureStore>,
    /// Texture handles for which the framebuffer collaborator holds a
    /// cached framebuffer object.
    pub fbo_cache: Vec<u32>,
    /// Every driver command issued on this context, in order.
    pub issued: Vec<GlCommand>,
}

impl Context {
    /// The context is consistent: the active unit exists, handles are
    /// nonzero, unique and below the fresh-handle counter.
    pub open spec fn wf(self) -> bool {
        &&& self.state.active_texture < self.state.texture_units.len()
        &&& self.next_texture_id >= 1
        &&& self.next_buffer_id >= 1
        &&& forall|i: int|
            0 <= i < self.textures.len() ==> (#[trigger] self.textures[i].id) != 0
                && self.textures[i].id < self.next_texture_id
        &&& forall|i: int, j: int|
            0 <= i < self.textures.len() && 0 <= j < self.textures.len() && i != j ==> (
            #[trigger] self.textures[i].id) != (#[trigger] self.textures[j].id)
    }

    /// There is a driver-resident texture under this handle.
    pub open spec fn spec_has_texture(self, id: u32) -> bool {
        exists|i: int| 0 <= i < self.textures.len() && (#[trigger] self.textures[i].id) == id
    }

    /// The index of the driver-resident texture under this handle.
    pub open spec fn spec_texture_index(self, id: u32) -> int {
        choose|i: int| 0 <= i < self.textures.len() && (#[trigger] self.textures[i].id) == id
    }

    /// The driver-resident texture under this handle.
    pub open spec fn spec_texture(self, id: u32) -> TextureStore {
        self.textures[self.spec_texture_index(id)]
    }

    /// Builds a fresh context over the given capability snapshot, with
    /// the driver's initial global state: alignments of four, no bound
    /// transfer buffers, unit zero active and nothing bound.
    pub fn new(caps: CapabilitySnapshot, texture_unit_count: usize) -> (r: Context)
        requires
            texture_unit_count >= 1,
        ensures
            r.wf(),
            r.caps == caps,
            r.state.unpack_alignment == 4,
            r.state.pack_alignment == 4,
            r.state.pixel_unpack_buffer == 0,
            r.state.pixel_pack_buffer == 0,
            r.state.active_texture == 0,
            r.state.texture_units@.len() == texture_unit_count,
            forall|i: int| 0 <= i < texture_unit_count ==> r.state.texture_units@[i] == 0,
            r.textures@.len() == 0,
            r.fbo_cache@.len() == 0,
            r.issued@.len() == 0,
            r.next_texture_id == 1,
            r.next_buffer_id == 1,
    {
        let mut units: Vec<u32> = Vec::new();
        let mut i: usize = 0;
        while i < texture_unit_count
            invariant
                i <= texture_unit_count,
                units@.len() == i,
                forall|j: int| 0 <= j < i ==> units@[j] == 0,
            decreases texture_unit_count - i,
        {
            units.push(0);
            i = i + 1;
        }
        Context {
            caps,
            state: GlState {
                unpack_alignment: 4,
                pack_alignment: 4,
                pixel_unpack_buffer: 0,
                pixel_pack_buffer: 0,
                active_texture: 0,
                texture_units: units,
            },
            next_texture_id: 1,
            next_buffer_id: 1,
            textures: Vec::new(),
            fbo_cache: Vec::new(),
            issued: Vec::new(),
        }
    }

    /// Finds the storage slot of a texture handle.
    pub fn find_texture(&self, id: u32) -> (r: Option<usize>)
        ensures
            r is Some <==> self.spec_has_texture(id),
            r matches Some(i) ==> i < self.textures@.len() && self.textures@[i as int].id == id,
    {
        let mut i: usize = 0;
        while i < self.textures.len()
            invariant
                i <= self.textures@.len(),
                forall|j: int| 0 <= j < i ==> (#[trigger] self.textures@[j].id) != id,
            decreases self.textures@.len() - i,
        {
            if self.textures[i].id == id {
                return Some(i);
            }
            i = i + 1;
        }
        None
    }

    /// Lets the framebuffer collaborator record that it caches a
    /// framebuffer object for this texture handle.
    pub fn cache_framebuffer(&mut self, texture_id: u32)
        ensures
            final(self).fbo_cache@ == old(self).fbo_cache@.push(texture_id),
            final(self).caps == old(self).caps,
            final(self).state == old(self).state,
            final(self).next_texture_id == old(self).next_texture_id,
            final(self).next_buffer_id == old(self).next_buffer_id,
            final(self).textures == old(self).textures,
            final(self).issued == old(self).issued,
    {
        self.fbo_cache.push(texture_id);
    }
}

/// The commands that force the unpack state into the deterministic
/// setting every upload depends on: byte-granular alignment and no bound
/// unpack buffer. A command is issued only where the state actually
/// differs.
pub open spec fn spec_unpack_preamble(s: GlState) -> Seq<GlCommand> {
    (if s.unpack_alignment != 1 {
        seq![GlCommand::SetUnpackAlignment(1)]
    } else {
        Seq::empty()
    }) + (if s.pixel_unpack_buffer != 0 {
        seq![GlCommand::UnbindPixelUnpackBuffer]
    } else {
        Seq::empty()
    })
}

/// The unpack preamble issues no command exactly when the state already
/// is the wanted one: the engine never performs a redundant state
/// transition to establish its precondition.
pub proof fn lemma_unpack_preamble_not_redundant(s: GlState)
    ensures
        spec_unpack_preamble(s) == Seq::<GlCommand>::empty() <==> (s.unpack_alignment == 1
            && s.pixel_unpack_buffer == 0),
{
    if s.unpack_alignment == 1 && s.pixel_unpack_buffer == 0 {
        assert(spec_unpack_preamble(s) =~= Seq::<GlCommand>::empty());
    } else {
        assert(spec_unpack_preamble(s).len() > 0);
    }
}

/// The commands that force the pack state into the deterministic setting
/// every readback depends on; a command is issued only where the state
/// actually differs.
pub open spec fn spec_pack_preamble(s: GlState) -> Seq<GlCommand> {
    (if s.pack_alignment != 1 {
        seq![GlCommand::SetPackAlignment(1)]
    } else {
        Seq::empty()
    }) + (if s.pixel_pack_buffer != 0 {
        seq![GlCommand::UnbindPixelPackBuffer]
    } else {
        Seq::empty()
    })
}

impl Context {
    /// Forces byte-granular unpack alignment and unbinds any pixel-unpack
    /// buffer, issuing only the commands for what actually differs.
    pub fn prepare_unpack(&mut self)
        ensures
            final(self).state.unpack_alignment == 1,
            final(self).state.pixel_unpack_buffer == 0,
            final(self).state.pack_alignment == old(self).state.pack_alignment,
            final(self).state.pixel_pack_buffer == old(self).state.pixel_pack_buffer,
            final(self).state.active_texture == old(self).state.active_texture,
            final(self).state.texture_units == old(self).state.texture_units,
            final(self).issued@ == old(self).issued@ + spec_unpack_preamble(old(self).state),
            final(self).caps == old(self).caps,
            final(self).next_texture_id == old(self).next_texture_id,
            final(self).next_buffer_id == old(self).next_buffer_id,
            final(self).textures == old(self).textures,
            final(self).fbo_cache == old(self).fbo_cache,
    {
        if self.state.unpack_alignment != 1 {
            self.state.unpack_alignment = 1;
            self.issued.push(GlCommand::SetUnpackAlignment(1));
        }
        if self.state.pixel_unpack_buffer != 0 {
            self.state.pixel_unpack_buffer = 0;
            self.issued.push(GlCommand::UnbindPixelUnpackBuffer);
        }
        proof {
            assert(final(self).issued@ =~= old(self).issued@ + spec_unpack_preamble(
                old(self).state,
            ));
        }
    }

    /// Forces byte-granular pack alignment and unbinds any pixel-pack
    /// buffer, issuing only the commands for what actually differs.
    pub fn prepare_pack(&mut self)
        ensures
            final(self).state.pack_alignment == 1,
            final(self).state.pixel_pack_buffer == 0,
            final(self).state.unpack_alignment == old(self).state.unpack_alignment,
            final(self).state.pixel_unpack_buffer == old(self).state.pixel_unpack_buffer,
            final(self).state.active_texture == old(self).state.active_texture,
            final(self).state.texture_units == old(self).state.texture_units,
            final(self).issued@ == old(self).issued@ + spec_pack_preamble(old(self).state),
            final(self).caps == old(self).caps,
            final(self).next_texture_id == old(self).next_texture_id,
            final(self).next_buffer_id == old(self).next_buffer_id,
            final(self).textures == old(self).textures,
            final(self).fbo_cache == old(self).fbo_cache,
    {
        if self.state.pack_alignment != 1 {
            self.state.pack_alignment = 1;
            self.issued.push(GlCommand::SetPackAlignment(1));
        }
        if self.state.pixel_pack_buffer != 0 {
            self.state.pixel_pack_buffer = 0;
            self.issued.push(GlCommand::UnbindPixelPackBuffer);
        }
        proof {
            assert(final(self).issued@ =~= old(self).issued@ + spec_pack_preamble(
                old(self).state,
            ));
        }
    }

    /// Binds a texture handle on the active unit and records it in the
    /// per-unit binding cache.
    pub fn bind_texture(&mut self, target: TextureType, id: u32)
        requires
            old(self).wf(),
        ensures
            final(self).wf(),
            final(self).state.texture_units@ == old(self).state.texture_units@.update(
                old(self).state.active_texture as int,
                id,
            ),
            final(self).state.active_texture == old(self).state.active_texture,
            final(self).state.unpack_alignment == old(self).state.unpack_alignment,
            final(self).state.pack_alignment == old(self).state.pack_alignment,
            final(self).state.pixel_unpack_buffer == old(self).state.pixel_unpack_buffer,
            final(self).state.pixel_pack_buffer == old(self).state.pixel_pack_buffer,
            final(self).issued@ == old(self).issued@.push(GlCommand::BindTexture(target, id)),
            final(self).caps == old(self).caps,
            final(self).next_texture_id == old(self).next_texture_id,
            final(self).next_buffer_id == old(self).next_buffer_id,
            final(self).textures == old(self).textures,
            final(self).fbo_cache == old(self).fbo_cache,
    {
        self.issued.push(GlCommand::BindTexture(target, id));
        let active: usize = self.state.active_texture;
        self.state.texture_units.set(active, id);
    }
}

} // verus!
