//! Tests of the environment operations and of the save/restore/update
//! protocol, run against the in-memory environment state.

use fpops::get_rounding_mode;
use fpops::result;
use fpops::set_rounding_mode;
use fpops::EnvState;
use fpops::FEnv;
use fpops::FExcept;
use fpops::FRound;

#[test]
fn rounding_round_trip_all_four_modes() {
    let mut env = EnvState::new();
    let modes = [
        FRound::Nearest,
        FRound::Downward,
        FRound::Upward,
        FRound::TowardZero,
    ];
    for m in modes {
        assert!(m.set(&mut env).is_ok());
        assert_eq!(FRound::from_env(&env), m);
        assert!(set_rounding_mode(m, &mut env).is_ok());
        assert_eq!(get_rounding_mode(&env), m);
    }
}

#[test]
fn raise_then_test_reports_exactly_that_flag() {
    let mut env = EnvState::new();
    assert!(FExcept::all().clear(&mut env).is_ok());
    assert!(FExcept::div_by_zero().raise(&mut env).is_ok());
    let t = FExcept::all().test(&env);
    assert_eq!(t, FExcept::div_by_zero());
    assert_eq!(t.as_raw(), 0x04);
}

#[test]
fn hold_update_bracket_preserves_mode_and_merges_exceptions() {
    let mut env = EnvState::new();
    assert!(FRound::TowardZero.set(&mut env).is_ok());
    assert!(FExcept::underflow().raise(&mut env).is_ok());

    let mut snap = FEnv::from_env(&env).unwrap();
    assert!(snap.hold(&mut env).is_ok());
    assert!(FExcept::all().test(&env).is_empty());
    assert!(env.nonstop);

    assert!(FExcept::div_by_zero().raise(&mut env).is_ok());
    assert!(snap.update(&mut env).is_ok());

    assert!(FExcept::all().test(&env).has(FExcept::div_by_zero()));
    assert!(FExcept::all().test(&env).has(FExcept::underflow()));
    assert_eq!(get_rounding_mode(&env), FRound::TowardZero);
    assert!(!env.nonstop);
}

#[test]
fn clear_twice_equals_clear_once_and_still_succeeds() {
    let mut env = EnvState::new();
    assert!(FExcept::all().raise(&mut env).is_ok());
    let f = FExcept::overflow().or(FExcept::inexact());
    assert!(f.clear(&mut env).is_ok());
    let once = env;
    assert!(f.clear(&mut env).is_ok());
    assert_eq!(env, once);
    assert_eq!(
        FExcept::all().test(&env).as_raw(),
        FExcept::all().not(f).as_raw()
    );
}

#[test]
fn clean_scenario_upward_overflow() {
    let mut env = EnvState::new();
    assert!(FExcept::all().test(&env).is_empty());
    assert_eq!(get_rounding_mode(&env), FRound::Nearest);

    assert!(FRound::Upward.set(&mut env).is_ok());
    assert!(FExcept::overflow().raise(&mut env).is_ok());

    assert_eq!(FExcept::all().test(&env), FExcept::overflow());
    assert_eq!(FRound::from_env(&env), FRound::Upward);

    assert!(FExcept::overflow().clear(&mut env).is_ok());
    assert!(FExcept::all().test(&env).is_empty());
}

#[test]
fn flag_set_leaves_other_flags_untouched() {
    let mut env = EnvState::new();
    assert!(FExcept::invalid().raise(&mut env).is_ok());
    assert!(FExcept::overflow().set(&mut env).is_ok());
    let t = FExcept::all().test(&env);
    assert!(t.has(FExcept::invalid()));
    assert!(t.has(FExcept::overflow()));
    assert_eq!(t.as_raw(), 0x01 | 0x08);
}

#[test]
fn from_env_reads_standard_flags_only() {
    let mut env = EnvState::new();
    assert!(FExcept::denorm().raise(&mut env).is_ok());
    assert!(FExcept::underflow().raise(&mut env).is_ok());
    let f = FExcept::from_env(&env).unwrap();
    assert_eq!(f, FExcept::underflow());
    assert_eq!(FExcept::all().test(&env), FExcept::underflow());
    assert_eq!(FExcept::denorm().test(&env), FExcept::denorm());
}

#[test]
fn snapshot_set_restores_everything() {
    let mut env = EnvState::new();
    assert!(FRound::Downward.set(&mut env).is_ok());
    assert!(FExcept::inexact().raise(&mut env).is_ok());
    let snap = FEnv::from_env(&env).unwrap();
    let before = *snap.inner();

    assert!(FRound::Nearest.set(&mut env).is_ok());
    assert!(FExcept::all().clear(&mut env).is_ok());
    assert!(snap.set(&mut env).is_ok());

    assert_eq!(env, before);
    assert_eq!(get_rounding_mode(&env), FRound::Downward);
    assert!(FExcept::all().test(&env).has(FExcept::inexact()));
}

#[test]
fn inner_mut_writes_through_to_the_snapshot() {
    let env = EnvState::new();
    let mut snap = FEnv::from_env(&env).unwrap();
    let mut other = EnvState::new();
    assert!(FRound::Upward.set(&mut other).is_ok());
    *snap.inner_mut() = other;
    assert_eq!(*snap.inner(), other);
}

#[test]
fn status_codes_normalize() {
    assert_eq!(result(0), Ok(()));
    let e = result(22).unwrap_err();
    assert_eq!(e.code(), 22);
    let e = result(-1).unwrap_err();
    assert_eq!(e.code(), -1);
}
