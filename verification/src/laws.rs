//! Laws of the environment protocol, proved once over the state model.
//!
//! Each lemma here states a guarantee of the save/restore/update protocol
//! for every environment state, in terms of the same transitions that the
//! operations' own contracts use.

use vstd::prelude::*;

use crate::env::EnvState;
use crate::flags::FE_ALL_EXCEPT;
use crate::flags::FE_TRACKED;
use crate::flags::FExcept;
use crate::round::FRound;

verus! {

/// Law: installing a rounding mode and reading it back yields exactly the
/// mode just installed, whatever the prior state, and touches nothing
/// else of the environment.
pub proof fn lemma_rounding_round_trip(s: EnvState, m: FRound)
    ensures
        s.with_round(m).round == m,
        s.with_round(m).excepts == s.excepts,
        s.with_round(m).nonstop == s.nonstop,
{
}

/// Law: after clearing all standard exceptions and then raising the flags
/// `f`, testing against the "all exceptions" mask reports exactly `f` and
/// nothing else.
///
/// `f` must lie within the "all exceptions" mask; the denormalized-operand
/// flag is a platform extension outside that mask, and a test against the
/// mask cannot report it.
pub proof fn lemma_raise_test_round_trip(s: EnvState, f: FExcept)
    requires
        f.0 & !FE_ALL_EXCEPT == 0,
    ensures
        s.with_cleared(FExcept(FE_ALL_EXCEPT)).with_raised(f).tested(FExcept(FE_ALL_EXCEPT)) == f,
{
    let x = s.excepts.0;
    let y = f.0;
    assert(y & !FE_ALL_EXCEPT == 0 ==> FE_ALL_EXCEPT & ((x & !FE_ALL_EXCEPT) | y) == y)
        by (bit_vector);
}

/// Law of the hold/update bracket: start anywhere, hold, raise the
/// exceptions `e` inside the bracket, then update with the held snapshot.
/// Afterwards `e` is observable as sticky-set — testing for `e` reports
/// all of `e` — the flags latched before the bracket are still latched,
/// and the rounding mode and trap masking are those from before the hold.
pub proof fn lemma_hold_update_bracket(s: EnvState, e: FExcept)
    ensures
        s.held().with_raised(e).updated_with(s).round == s.round,
        s.held().with_raised(e).updated_with(s).nonstop == s.nonstop,
        s.held().with_raised(e).updated_with(s).excepts.0 == s.excepts.0 | e.0,
        s.held().with_raised(e).updated_with(s).tested(e) == e,
{
    let x = s.excepts.0;
    let y = e.0;
    assert(x | (0u32 | y) == x | y) by (bit_vector);
    assert(y & (x | (0u32 | y)) == y) by (bit_vector);
}

/// Law: every transition of the environment preserves well-formedness.
/// Starting from a well-formed state, raising, setting or clearing
/// well-formed flags, changing the rounding mode, holding, and merging a
/// well-formed snapshot back in all leave the sticky flags inside the
/// tracked mask; and what a read or a test reports is well-formed too.
pub proof fn lemma_transitions_preserve_wf(s: EnvState, snap: EnvState, f: FExcept, m: FRound)
    ensures
        s.wf() && f.wf() ==> s.with_raised(f).wf(),
        s.wf() && f.wf() ==> s.with_flags_set(f).wf(),
        s.wf() ==> s.with_cleared(f).wf(),
        s.wf() ==> s.with_round(m).wf(),
        s.held().wf(),
        s.wf() && snap.wf() ==> s.updated_with(snap).wf(),
        s.read_flags().wf(),
        s.wf() ==> s.tested(f).wf(),
{
    let x = s.excepts.0;
    let y = f.0;
    let z = snap.excepts.0;
    assert(x & !FE_TRACKED == 0 && y & !FE_TRACKED == 0 ==> (x | y) & !FE_TRACKED == 0)
        by (bit_vector);
    assert(x & !FE_TRACKED == 0 ==> (x & !y) & !FE_TRACKED == 0) by (bit_vector);
    assert(0u32 & !FE_TRACKED == 0) by (bit_vector);
    assert(x & !FE_TRACKED == 0 && z & !FE_TRACKED == 0 ==> (z | x) & !FE_TRACKED == 0)
        by (bit_vector);
    assert((x & FE_ALL_EXCEPT) & !FE_TRACKED == 0) by (bit_vector);
    assert(x & !FE_TRACKED == 0 ==> (y & x) & !FE_TRACKED == 0) by (bit_vector);
}

/// Law: clearing the same flags twice is the same as clearing them once;
/// the second clearing changes nothing further (and, like every clearing,
/// it reports success).
pub proof fn lemma_clear_idempotent(s: EnvState, f: FExcept)
    ensures
        s.with_cleared(f).with_cleared(f) == s.with_cleared(f),
{
    let x = s.excepts.0;
    let y = f.0;
    assert((x & !y) & !y == x & !y) by (bit_vector);
}

} // verus!
