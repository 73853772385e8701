//! The exception-flag bitset type and its pure operations.
//!
//! [`FExcept`] is a small copyable value type over a fixed-width unsigned
//! integer. Each set bit names one floating-point exception condition. The
//! named constructors only produce values whose bits lie inside the tracked
//! mask; arbitrary bit patterns are possible through the raw escape hatch
//! and are the caller's responsibility.

use vstd::prelude::*;

verus! {

/// Bit naming the "invalid operation" exception condition.
pub const FE_INVALID: u32 = 0x01;
/// Bit naming the "denormalized operand" exception condition.
pub const FE_DENORM: u32 = 0x02;
/// Bit naming the "division by zero" exception condition.
pub const FE_DIVBYZERO: u32 = 0x04;
/// Bit naming the "overflow" exception condition.
pub const FE_OVERFLOW: u32 = 0x08;
/// Bit naming the "underflow" exception condition.
pub const FE_UNDERFLOW: u32 = 0x10;
/// Bit naming the "inexact result" exception condition.
pub const FE_INEXACT: u32 = 0x20;
/// The platform's "all exceptions" mask: every standard condition at once.
/// The denormalized-operand bit is a platform extension and not part of it.
pub const FE_ALL_EXCEPT: u32 = 0x3d;
/// Every bit that a named constructor of [`FExcept`] can produce.
pub const FE_TRACKED: u32 = 0x3f;

/// A wrapper over floating point exception flags.
///
/// This type encapsulates the behaviour of manipulating the configuration
/// of floating point exceptions without needing to deal with the raw API.
/// The raw bit pattern is exposed for interop; writing it directly bypasses
/// the named constructors and is the caller's responsibility.
#[derive(Clone, Copy, Debug, PartialEq, Eq, Structural)]
pub struct FExcept(pub u32);

impl FExcept {
    /// A well-formed value only carries bits that some named constant names.
    pub open spec fn wf(self) -> bool {
        self.0 & !FE_TRACKED == 0
    }

    /// The empty set of exception flags.
    pub fn none() -> (r: Self)
        ensures
            r.0 == 0,
            r.wf(),
    {
        proof {
            assert(0u32 & !FE_TRACKED == 0) by (bit_vector);
        }
        FExcept(0)
    }

    /// The "invalid operation" flag.
    pub fn invalid() -> (r: Self)
        ensures
            r.0 == FE_INVALID,
            r.wf(),
    {
        proof {
            assert(FE_INVALID & !FE_TRACKED == 0) by (bit_vector);
        }
        FExcept(FE_INVALID)
    }

    /// The "denormalized operand" flag.
    pub fn denorm() -> (r: Self)
        ensures
            r.0 == FE_DENORM,
            r.wf(),
    {
        proof {
            assert(FE_DENORM & !FE_TRACKED == 0) by (bit_vector);
        }
        FExcept(FE_DENORM)
    }

    /// The "division by zero" flag.
    pub fn div_by_zero() -> (r: Self)
        ensures
            r.0 == FE_DIVBYZERO,
            r.wf(),
    {
        proof {
            assert(FE_DIVBYZERO & !FE_TRACKED == 0) by (bit_vector);
        }
        FExcept(FE_DIVBYZERO)
    }

    /// The "overflow" flag.
    pub fn overflow() -> (r: Self)
        ensures
            r.0 == FE_OVERFLOW,
            r.wf(),
    {
        proof {
            assert(FE_OVERFLOW & !FE_TRACKED == 0) by (bit_vector);
        }
        FExcept(FE_OVERFLOW)
    }

    /// The "underflow" flag.
    pub fn underflow() -> (r: Self)
        ensures
            r.0 == FE_UNDERFLOW,
            r.wf(),
    {
        proof {
            assert(FE_UNDERFLOW & !FE_TRACKED == 0) by (bit_vector);
        }
        FExcept(FE_UNDERFLOW)
    }

    /// The "inexact result" flag.
    pub fn inexact() -> (r: Self)
        ensures
            r.0 == FE_INEXACT,
            r.wf(),
    {
        proof {
            assert(FE_INEXACT & !FE_TRACKED == 0) by (bit_vector);
        }
        FExcept(FE_INEXACT)
    }

    /// Every standard exception flag at once (the platform's "all" mask).
    pub fn all() -> (r: Self)
        ensures
            r.0 == FE_ALL_EXCEPT,
            r.wf(),
    {
        proof {
            assert(FE_ALL_EXCEPT & !FE_TRACKED == 0) by (bit_vector);
        }
        FExcept(FE_ALL_EXCEPT)
    }

    /// True iff no flag is set.
    pub fn is_empty(self) -> (r: bool)
        ensures
            r == (self.0 == 0),
    {
        self.as_raw() == 0
    }

    /// See if the given flags exist: true iff `self` and `other` overlap
    /// in at least one bit (an any-overlap test, not a subset test).
    pub fn has(self, other: Self) -> (r: bool)
        ensures
            r == (self.0 & other.0 != 0),
    {
        self.0 & other.0 != 0
    }

    /// Return a new set of flags carrying every flag of `self` and of
    /// `other` (bitwise union).
    pub fn or(self, other: Self) -> (r: Self)
        ensures
            r.0 == self.0 | other.0,
            self.wf() && other.wf() ==> r.wf(),
    {
        proof {
            let x = self.0;
            let y = other.0;
            assert(x & !FE_TRACKED == 0 && y & !FE_TRACKED == 0 ==> (x | y) & !FE_TRACKED == 0)
                by (bit_vector);
        }
        FExcept(self.0 | other.0)
    }

    /// Return a new set of flags with every flag of `other` removed from
    /// `self` (bitwise difference).
    pub fn not(self, other: Self) -> (r: Self)
        ensures
            r.0 == self.0 & !other.0,
            self.wf() ==> r.wf(),
    {
        proof {
            let x = self.0;
            let y = other.0;
            assert(x & !FE_TRACKED == 0 ==> (x & !y) & !FE_TRACKED == 0) by (bit_vector);
        }
        FExcept(self.0 & !other.0)
    }

    /// Retrieve the raw representation of the flags.
    pub fn as_raw(self) -> (r: u32)
        ensures
            r == self.0,
    {
        self.0
    }

    /// Build a flag set from a raw bit pattern, accepting exactly the
    /// patterns whose bits all carry a meaning in this layer.
    pub fn from_raw(raw: u32) -> (r: Option<Self>)
        ensures
            raw & !FE_TRACKED == 0 <==> r is Some,
            r matches Some(f) ==> f.0 == raw && f.wf(),
    {
        if raw & !FE_TRACKED == 0 {
            Some(FExcept(raw))
        } else {
            None
        }
    }
}

/// Law: a union contains each of its operands, and removing one operand
/// from the union leaves exactly the other operand's own bits.
///
/// For every pair of flag values `a` and `b`: `a.or(b).has(a)` holds
/// whenever `a` is nonempty, and `a.or(b).not(b)` equals `a.not(b)` — the
/// union with exactly the bits of `b` removed.
pub proof fn lemma_or_has_not(a: FExcept, b: FExcept)
    ensures
        a.0 != 0 ==> (a.0 | b.0) & a.0 != 0,
        (a.0 | b.0) & !b.0 == a.0 & !b.0,
{
    let x = a.0;
    let y = b.0;
    assert(x != 0 ==> (x | y) & x != 0) by (bit_vector);
    assert((x | y) & !y == x & !y) by (bit_vector);
}

/// Law: the empty flag set is empty, and the "all exceptions" set is not.
pub proof fn lemma_none_empty_all_nonempty()
    ensures
        FExcept(0).0 == 0,
        FExcept(FE_ALL_EXCEPT).0 != 0,
{
}

} // verus!
