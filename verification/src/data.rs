//! Scalar data kinds understood by the GPU driver, with their byte widths.

use vstd::prelude::*;

verus! {

/// The closed set of scalar kinds a vertex attribute or index buffer may
/// hold. `NoType` denotes the absence of a type (for example, a draw call
/// without an index buffer).
#[derive(Clone, Copy, Debug, PartialEq, Eq, Structural)]
pub enum Type {
    NoType,
    Float,
    Fixed,
    Half,
    Double,
    Byte,
    UByte,
    Short,
    UShort,
    Int,
    UInt,
}

/// The fixed byte width of each scalar kind.
pub open spec fn spec_type_size(t: Type) -> int {
    match t {
        Type::Byte | Type::UByte => 1,
        Type::Short | Type::UShort | Type::Half => 2,
        Type::Float => 4,
        Type::Int | Type::UInt => 4,
        Type::Fixed => 2,
        Type::Double => 8,
        Type::NoType => 0,
    }
}

impl Type {
    /// Byte width of one scalar of this kind.
    pub fn get_size(self) -> (size: i32)
        ensures
            size == spec_type_size(self),
    {
        match self {
            Self::Byte | Self::UByte => 1,
            Self::Short | Self::UShort | Self::Half => 2,
            Self::Float => 4,
            Self::Int | Self::UInt => 4,
            Self::Fixed => 2,
            Self::Double => 8,
            Self::NoType => 0,
        }
    }
}

} // verus!
