//! Error taxonomy of the texture layer.

use vstd::prelude::*;

verus! {

/// A creation request that is invalid or cannot be satisfied under the
/// current capability snapshot.
#[derive(Copy, Clone, PartialEq, Eq, Structural, Debug)]
pub enum TextureCreationError {
    /// Format negotiation cannot satisfy the requested format under the
    /// current capabilities.
    UnsupportedFormat,
    /// The client-supplied transfer format is incompatible with the
    /// requested texture format.
    IncompatibleClientFormat,
    /// The driver restricts dimensions to powers of two and a populated
    /// axis violates that restriction.
    DimensionsNotSupported,
}

/// Creation outcome that distinguishes "this feature is absent on this
/// driver" from "this specific request is invalid regardless of driver".
#[derive(Copy, Clone, PartialEq, Eq, Structural, Debug)]
pub enum TextureMaybeSupportedCreationError {
    /// The driver lacks a feature the request needs (multisampling, mipmap
    /// regeneration); a caller may degrade gracefully.
    NotSupported,
    /// The request itself cannot be satisfied.
    CreationError(TextureCreationError),
}

/// A partial update that the engine refuses.
#[derive(Copy, Clone, PartialEq, Eq, Structural, Debug)]
pub enum UploadError {
    /// A partial compressed write violates the block alignment restrictions
    /// of the destination's compressed layout.
    WriteRejected,
    /// The supplied transfer format is incompatible with the format the
    /// texture was created with.
    IncompatibleClientFormat,
}

} // verus!
