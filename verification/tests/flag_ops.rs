//! Tests of the pure flag algebra: construction, union, difference,
//! emptiness, overlap, and raw-value interop.

use fpops::flags;
use fpops::FExcept;
use fpops::FRound;

#[test]
fn union_contains_operands() {
    let a = FExcept::invalid().or(FExcept::overflow());
    let b = FExcept::inexact();
    let u = a.or(b);
    assert!(u.has(a));
    assert!(u.has(b));
    assert!(u.has(FExcept::invalid()));
    assert_eq!(u.as_raw(), 0x01 | 0x08 | 0x20);
}

#[test]
fn difference_removes_exactly_the_other_bits() {
    let a = FExcept::invalid().or(FExcept::overflow());
    let b = FExcept::overflow().or(FExcept::inexact());
    let d = a.or(b).not(b);
    assert_eq!(d.as_raw(), 0x01);
    assert_eq!(d.as_raw(), a.not(b).as_raw());
}

#[test]
fn overlap_is_any_not_subset() {
    let a = FExcept::invalid().or(FExcept::overflow());
    assert!(a.has(FExcept::overflow().or(FExcept::inexact())));
    assert!(!a.has(FExcept::inexact()));
    assert!(!FExcept::none().has(a));
}

#[test]
fn none_is_empty_and_all_is_not() {
    assert!(FExcept::none().is_empty());
    assert!(!FExcept::all().is_empty());
}

#[test]
fn named_flag_raw_values() {
    assert_eq!(FExcept::invalid().as_raw(), flags::FE_INVALID);
    assert_eq!(FExcept::denorm().as_raw(), flags::FE_DENORM);
    assert_eq!(FExcept::div_by_zero().as_raw(), flags::FE_DIVBYZERO);
    assert_eq!(FExcept::overflow().as_raw(), flags::FE_OVERFLOW);
    assert_eq!(FExcept::underflow().as_raw(), flags::FE_UNDERFLOW);
    assert_eq!(FExcept::inexact().as_raw(), flags::FE_INEXACT);
    assert_eq!(FExcept::all().as_raw(), flags::FE_ALL_EXCEPT);
    assert_eq!(
        flags::FE_ALL_EXCEPT,
        flags::FE_INVALID
            | flags::FE_DIVBYZERO
            | flags::FE_OVERFLOW
            | flags::FE_UNDERFLOW
            | flags::FE_INEXACT
    );
}

#[test]
fn except_raw_round_trip() {
    let raw = flags::FE_INVALID | flags::FE_UNDERFLOW;
    let f = FExcept::from_raw(raw).unwrap();
    assert_eq!(f.as_raw(), raw);
    assert!(FExcept::from_raw(0x40).is_none());
    assert!(FExcept::from_raw(flags::FE_TRACKED).is_some());
}

#[test]
fn round_raw_round_trip() {
    let modes = [
        FRound::Nearest,
        FRound::Downward,
        FRound::Upward,
        FRound::TowardZero,
    ];
    for m in modes {
        assert_eq!(FRound::from_raw(m.as_raw()), Some(m));
    }
    assert_eq!(FRound::Nearest.as_raw(), 0x000);
    assert_eq!(FRound::Downward.as_raw(), 0x400);
    assert_eq!(FRound::Upward.as_raw(), 0x800);
    assert_eq!(FRound::TowardZero.as_raw(), 0xc00);
    assert!(FRound::from_raw(0x123).is_none());
}
