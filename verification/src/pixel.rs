//! Sample types and their native pixel-format identifiers.

use vstd::prelude::*;

verus! {

/// The sample types a raster band can be read or written as.
#[derive(Clone, Copy, Debug, PartialEq, Eq, Structural)]
pub enum PixelType {
    /// Unsigned, 8 bits.
    UInt8,
    /// Unsigned, 16 bits.
    UInt16,
    /// Signed, 16 bits.
    Int16,
    /// Unsigned, 32 bits.
    UInt32,
    /// Signed, 32 bits.
    Int32,
    /// Floating point, 32 bits.
    Float32,
    /// Floating point, 64 bits.
    Float64,
}

impl PixelType {
    /// The native pixel-format identifier of this sample type.
    pub open spec fn native_code(self) -> u32 {
        match self {
            PixelType::UInt8 => 1,
            PixelType::UInt16 => 2,
            PixelType::Int16 => 3,
            PixelType::UInt32 => 4,
            PixelType::Int32 => 5,
            PixelType::Float32 => 6,
            PixelType::Float64 => 7,
        }
    }

    /// The sample type that a native pixel-format identifier stands for, if
    /// it is one of those this layer transfers.
    pub open spec fn of_native_code(code: u32) -> Option<PixelType> {
        if code == 1 {
            Some(PixelType::UInt8)
        } else if code == 2 {
            Some(PixelType::UInt16)
        } else if code == 3 {
            Some(PixelType::Int16)
        } else if code == 4 {
            Some(PixelType::UInt32)
        } else if code == 5 {
            Some(PixelType::Int32)
        } else if code == 6 {
            Some(PixelType::Float32)
        } else if code == 7 {
            Some(PixelType::Float64)
        } else {
            None
        }
    }

    /// Number of bytes one sample of this type takes in memory.
    pub open spec fn sample_bytes(self) -> nat {
        match self {
            PixelType::UInt8 => 1,
            PixelType::UInt16 | PixelType::Int16 => 2,
            PixelType::UInt32 | PixelType::Int32 | PixelType::Float32 => 4,
            PixelType::Float64 => 8,
        }
    }

    /// Maps a sample type to its native pixel-format identifier.
    pub fn to_native(self) -> (code: u32)
        ensures
            code == self.native_code(),
    {
        match self {
            PixelType::UInt8 => 1,
            PixelType::UInt16 => 2,
            PixelType::Int16 => 3,
            PixelType::UInt32 => 4,
            PixelType::Int32 => 5,
            PixelType::Float32 => 6,
            PixelType::Float64 => 7,
        }
    }

    /// Maps a native pixel-format identifier back to its sample type. The
    /// backend knows formats that this layer does not transfer; those, and
    /// the identifier for an unknown format, give `None`.
    pub fn from_native(code: u32) -> (pixel_type: Option<PixelType>)
        ensures
            pixel_type == Self::of_native_code(code),
    {
        match code {
            1 => Some(PixelType::UInt8),
            2 => Some(PixelType::UInt16),
            3 => Some(PixelType::Int16),
            4 => Some(PixelType::UInt32),
            5 => Some(PixelType::Int32),
            6 => Some(PixelType::Float32),
            7 => Some(PixelType::Float64),
            _ => None,
        }
    }

    /// The width of one sample in bytes: what each element of a buffer handed
    /// to a native transfer of this type must measure.
    pub fn size_in_bytes(self) -> (bytes: usize)
        ensures
            bytes == self.sample_bytes(),
    {
        match self {
            PixelType::UInt8 => 1,
            PixelType::UInt16 => 2,
            PixelType::Int16 => 2,
            PixelType::UInt32 => 4,
            PixelType::Int32 => 4,
            PixelType::Float32 => 4,
            PixelType::Float64 => 8,
        }
    }
}

/// Mapping a sample type to its native identifier and back gives the sample
/// type again: the mapping loses nothing.
pub proof fn lemma_native_round_trip(pixel_type: PixelType)
    ensures
        PixelType::of_native_code(pixel_type.native_code()) == Some(pixel_type),
{
}

/// A native identifier that stands for a sample type is the identifier of
/// that sample type and of no other.
pub proof fn lemma_native_code_recovered(code: u32, pixel_type: PixelType)
    ensures
        PixelType::of_native_code(code) == Some(pixel_type) <==> pixel_type.native_code() == code,
{
}

/// Two sample types with one native identifier are one sample type.
pub proof fn lemma_native_code_injective(a: PixelType, b: PixelType)
    requires
        a.native_code() == b.native_code(),
    ensures
        a == b,
{
}

} // verus!
