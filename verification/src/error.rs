//! Failures and warnings raised while a cartridge is being built.
use vstd::prelude::*;

verus! {

/// Why a ROM image could not be loaded.
#[derive(Clone, Copy, Debug, PartialEq, Eq, Structural)]
pub enum RomLoadError {
    /// The image file could not be opened.
    NotFound,
    /// The image holds fewer bytes than the header region needs.
    TooShort,
    /// The image's length differs from the length its header declares.
    SizeMismatch,
}

/// Why no cartridge could be built from an image.
#[derive(Clone, Copy, Debug, PartialEq, Eq, Structural)]
pub enum CartridgeError {
    /// The image itself was rejected.
    RomLoad(RomLoadError),
    /// The header's cartridge-type byte names no controller that can be built.
    UnsupportedCartridgeType,
    /// A size code of the header has no size.
    InvalidSizeCode,
}

/// The stored header checksum differs from the one computed over the header.
///
/// This is a warning: real hardware does not enforce the checksum, and loading
/// goes on.
#[derive(Clone, Copy, Debug, PartialEq, Eq, Structural)]
pub struct HeaderChecksumMismatch {
    /// The byte found in the header.
    pub stored: u8,
    /// The checksum computed over the header bytes.
    pub computed: u8,
}

} // verus!
