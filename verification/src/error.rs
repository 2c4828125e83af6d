//! Error kinds surfaced while loading a BSP map image.

use vstd::prelude::*;

verus! {

/// Everything that can go wrong while a map image is decoded.
///
/// All of these are fatal at load time; none is retried.
#[derive(Clone, Copy, Debug, PartialEq, Eq, Structural)]
pub enum BspError {
    /// The byte image is shorter than a read asked for.
    IoError,
    /// The first four bytes are not the 'VBSP' magic word.
    InvalidMagic,
    /// The version word is below the oldest supported revision.
    UnsupportedVersion,
    /// A required lump's byte length is zero, negative, or not a
    /// multiple of its record size.
    InvalidLumpSize,
    /// The leaf-face or leaf-brush table is empty.
    LeafTableEmpty,
    /// The leaf-face or leaf-brush table holds more entries than the
    /// format allows.
    LeafTableOverflow,
}

impl BspError {
    /// A short human-readable name for the error, for callers that print it.
    pub fn message(&self) -> (r: &'static str)
        ensures
            r@ == self.spec_message(),
    {
        match self {
            BspError::IoError => "i/o error",
            BspError::InvalidMagic => "invalid bsp magic",
            BspError::UnsupportedVersion => "invalid bsp file version",
            BspError::InvalidLumpSize => "invalid lump data",
            BspError::LeafTableEmpty => "leaf table is empty",
            BspError::LeafTableOverflow => "leaf table is too large",
        }
    }

    pub open spec fn spec_message(self) -> Seq<char> {
        match self {
            BspError::IoError => "i/o error"@,
            BspError::InvalidMagic => "invalid bsp magic"@,
            BspError::UnsupportedVersion => "invalid bsp file version"@,
            BspError::InvalidLumpSize => "invalid lump data"@,
            BspError::LeafTableEmpty => "leaf table is empty"@,
            BspError::LeafTableOverflow => "leaf table is too large"@,
        }
    }
}

} // verus!
