//! The rounding-mode type.
//!
//! A rounding mode is a closed choice among the four directions the platform
//! defines, not a combinable bitset: combining two different modes has no
//! platform meaning, so [`FRound`] is a plain enumeration and only converts
//! to and from the platform's raw values at the interop boundary.

use vstd::prelude::*;

verus! {

/// Raw platform value selecting round-to-nearest.
pub const FE_TONEAREST: u32 = 0x000;
/// Raw platform value selecting rounding toward negative infinity.
pub const FE_DOWNWARD: u32 = 0x400;
/// Raw platform value selecting rounding toward positive infinity.
pub const FE_UPWARD: u32 = 0x800;
/// Raw platform value selecting rounding toward zero.
pub const FE_TOWARDZERO: u32 = 0xc00;

/// A wrapper over the floating point rounding directions.
///
/// This type encapsulates the behaviour of manipulating the configuration
/// of floating point rounding without needing to deal with the raw API.
/// Exactly one of the four platform-defined directions is held.
#[derive(Clone, Copy, Debug, PartialEq, Eq, Structural)]
pub enum FRound {
    /// Round to the nearest representable value, ties to even.
    Nearest,
    /// Round toward negative infinity.
    Downward,
    /// Round toward positive infinity.
    Upward,
    /// Round toward zero.
    TowardZero,
}

impl FRound {
    /// The raw platform value that selects this rounding direction.
    pub open spec fn raw_spec(self) -> u32 {
        match self {
            FRound::Nearest => FE_TONEAREST,
            FRound::Downward => FE_DOWNWARD,
            FRound::Upward => FE_UPWARD,
            FRound::TowardZero => FE_TOWARDZERO,
        }
    }

    /// Retrieve the raw representation of the rounding direction.
    pub fn as_raw(self) -> (r: u32)
        ensures
            r == self.raw_spec(),
    {
        match self {
            FRound::Nearest => FE_TONEAREST,
            FRound::Downward => FE_DOWNWARD,
            FRound::Upward => FE_UPWARD,
            FRound::TowardZero => FE_TOWARDZERO,
        }
    }

    /// Build a rounding direction from a raw platform value, accepting
    /// exactly the four values the platform defines.
    pub fn from_raw(raw: u32) -> (r: Option<Self>)
        ensures
            r matches Some(m) ==> m.raw_spec() == raw,
            r is None <==> (raw != FE_TONEAREST && raw != FE_DOWNWARD && raw != FE_UPWARD
                && raw != FE_TOWARDZERO),
    {
        if raw == FE_TONEAREST {
            Some(FRound::Nearest)
        } else if raw == FE_DOWNWARD {
            Some(FRound::Downward)
        } else if raw == FE_UPWARD {
            Some(FRound::Upward)
        } else if raw == FE_TOWARDZERO {
            Some(FRound::TowardZero)
        } else {
            None
        }
    }
}

} // verus!
