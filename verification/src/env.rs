//! The floating point environment: its state model, the operations of the
//! flag types against it, and full-environment snapshots.
//!
//! The platform keeps one floating point environment per thread of
//! execution, mutated in place by native calls. [`EnvState`] holds, as plain
//! values, everything this layer reads of that state: the sticky exception
//! flags, the rounding mode, and whether exception traps are masked
//! ("non-stop" mode). Every operation below is given an exact meaning as a
//! pure transition over [`EnvState`]; the native calls that carry such a
//! transition onto the live hardware state stand outside this crate and
//! exchange raw values with these types through `as_raw`/`from_raw`.

use vstd::prelude::*;

use crate::flags::FE_ALL_EXCEPT;
use crate::flags::FExcept;
use crate::round::FRound;
use crate::status::FeError;

verus! {

/// Everything this layer reads of a floating point environment: the sticky
/// exception flags, the rounding mode, and whether exception traps are
/// masked. A value of this type stands both for the live environment and
/// for the payload of a captured snapshot.
#[derive(Clone, Copy, Debug, PartialEq, Eq, Structural)]
pub struct EnvState {
    /// The sticky exception flags: each set bit records that the condition
    /// occurred since it was last cleared.
    pub excepts: FExcept,
    /// The rounding mode currently in force.
    pub round: FRound,
    /// True when exception traps are masked, so raising an exception only
    /// latches its sticky flag and never stops execution.
    pub nonstop: bool,
}

impl EnvState {
    /// A state is well-formed when its sticky flags only carry bits that
    /// some named exception constant names.
    pub open spec fn wf(self) -> bool {
        self.excepts.wf()
    }

    /// The state after the exceptions in `f` are raised: their sticky
    /// flags latch, everything else is untouched.
    pub open spec fn with_raised(self, f: FExcept) -> EnvState {
        EnvState { excepts: FExcept(self.excepts.0 | f.0), ..self }
    }

    /// The state after the sticky flags named in `f` are cleared; flags
    /// not named in `f` are untouched.
    pub open spec fn with_cleared(self, f: FExcept) -> EnvState {
        EnvState { excepts: FExcept(self.excepts.0 & !f.0), ..self }
    }

    /// The state after the saved flags `f` are installed under the mask
    /// `f` itself: every flag named in `f` is set to its saved value (set),
    /// and flags outside the mask are untouched — so the sticky state gains
    /// exactly the flags of `f`.
    pub open spec fn with_flags_set(self, f: FExcept) -> EnvState {
        EnvState { excepts: FExcept(self.excepts.0 | f.0), ..self }
    }

    /// The sticky state as the platform reports it for the "all
    /// exceptions" mask: the standard conditions currently latched.
    pub open spec fn read_flags(self) -> FExcept {
        FExcept(self.excepts.0 & FE_ALL_EXCEPT)
    }

    /// The subset of `f` whose sticky flags are currently latched.
    pub open spec fn tested(self, f: FExcept) -> FExcept {
        FExcept(f.0 & self.excepts.0)
    }

    /// The state after the rounding mode `m` is installed.
    pub open spec fn with_round(self, m: FRound) -> EnvState {
        EnvState { round: m, ..self }
    }

    /// The state the platform installs on a hold: all sticky flags
    /// cleared and traps masked, with the rounding mode kept.
    pub open spec fn held(self) -> EnvState {
        EnvState { excepts: FExcept(0), round: self.round, nonstop: true }
    }

    /// The state after the snapshot `snap` is merged back in: control
    /// state (rounding mode, trap masking) comes from the snapshot, while
    /// the sticky flags of the meantime are preserved by raising them on
    /// top of the snapshot's own.
    pub open spec fn updated_with(self, snap: EnvState) -> EnvState {
        EnvState { excepts: FExcept(snap.excepts.0 | self.excepts.0), round: snap.round, nonstop: snap.nonstop }
    }

    /// A clean environment: no sticky flag latched, round to nearest,
    /// traps not masked.
    pub fn new() -> (r: EnvState)
        ensures
            r == (EnvState { excepts: FExcept(0), round: FRound::Nearest, nonstop: false }),
            r.wf(),
    {
        proof {
            assert(0u32 & !crate::flags::FE_TRACKED == 0) by (bit_vector);
        }
        EnvState { excepts: FExcept(0), round: FRound::Nearest, nonstop: false }
    }
}

impl FExcept {
    /// Read the sticky exception state for all standard conditions out of
    /// the environment. On the in-memory state this always succeeds; the
    /// native read reports any failure through the same `Result` shape.
    pub fn from_env(env: &EnvState) -> (r: Result<Self, FeError>)
        ensures
            r matches Ok(f) && f == env.read_flags(),
    {
        Ok(FExcept(env.excepts.as_raw() & FE_ALL_EXCEPT))
    }

    /// Install the flags of `self` into the sticky state, masked to the
    /// exceptions `self` names: those flags become set, all others are
    /// left untouched (saved-flag restoration, not flag raising — no trap
    /// can fire). Always succeeds on the in-memory state.
    pub fn set(self, env: &mut EnvState) -> (r: Result<(), FeError>)
        ensures
            r is Ok,
            *final(env) == old(env).with_flags_set(self),
    {
        env.excepts = self.or(env.excepts);
        proof {
            let x = self.0;
            let y = old(env).excepts.0;
            assert(x | y == y | x) by (bit_vector);
        }
        Ok(())
    }

    /// Clear the sticky flags named in `self`; the rest are untouched.
    /// Always succeeds on the in-memory state.
    pub fn clear(self, env: &mut EnvState) -> (r: Result<(), FeError>)
        ensures
            r is Ok,
            *final(env) == old(env).with_cleared(self),
    {
        env.excepts = env.excepts.not(self);
        Ok(())
    }

    /// Raise the exceptions named in `self`, as if the corresponding
    /// floating point operations had just occurred: their sticky flags
    /// latch. On the live environment this may also fire a trap when traps
    /// are not masked; on the in-memory state it always succeeds.
    pub fn raise(self, env: &mut EnvState) -> (r: Result<(), FeError>)
        ensures
            r is Ok,
            *final(env) == old(env).with_raised(self),
    {
        env.excepts = env.excepts.or(self);
        Ok(())
    }

    /// Return the subset of `self` that is currently latched in the sticky
    /// state. Reads only; cannot fail.
    pub fn test(self, env: &EnvState) -> (r: Self)
        ensures
            r == env.tested(self),
    {
        FExcept(self.as_raw() & env.excepts.as_raw())
    }
}

impl FRound {
    /// Read the rounding mode in force. Cannot fail: the platform always
    /// holds a valid mode.
    pub fn from_env(env: &EnvState) -> (r: Self)
        ensures
            r == env.round,
    {
        env.round
    }

    /// Install `self` as the rounding mode. Every direction this closed
    /// enumeration can hold is a mode the platform defines, so on the
    /// in-memory state this always succeeds; the native call reports an
    /// unsupported mode through the same `Result` shape.
    pub fn set(self, env: &mut EnvState) -> (r: Result<(), FeError>)
        ensures
            r is Ok,
            *final(env) == old(env).with_round(self),
    {
        env.round = self;
        Ok(())
    }
}

/// A wrapper around the floating point environment: a point-in-time copy
/// of the full state, captured and replayed as one unit.
#[derive(Clone, Copy, Debug, PartialEq, Eq, Structural)]
pub struct FEnv {
    env: EnvState,
}

impl FEnv {
    /// The captured state this snapshot carries.
    pub closed spec fn state(self) -> EnvState {
        self.env
    }

    /// Capture the entire current environment into a fresh snapshot.
    /// Always succeeds on the in-memory state; the native capture reports
    /// any failure through the same `Result` shape.
    pub fn from_env(env: &EnvState) -> (r: Result<Self, FeError>)
        ensures
            r matches Ok(s) && s.state() == *env,
    {
        Ok(FEnv { env: *env })
    }

    /// Install this snapshot as the environment: rounding mode, sticky
    /// flags and trap masking all revert to what was captured.
    pub fn set(&self, env: &mut EnvState) -> (r: Result<(), FeError>)
        ensures
            r is Ok,
            *final(env) == self.state(),
    {
        *env = self.env;
        Ok(())
    }

    /// Atomically capture the current environment into `self` — its prior
    /// contents are overwritten — and put the environment into a defined
    /// "all flags cleared, traps masked" state, so a following computation
    /// can raise exceptions without them stopping execution.
    pub fn hold(&mut self, env: &mut EnvState) -> (r: Result<(), FeError>)
        ensures
            r is Ok,
            final(self).state() == *old(env),
            *final(env) == old(env).held(),
    {
        self.env = *env;
        env.excepts = FExcept(0);
        env.nonstop = true;
        Ok(())
    }

    /// Atomically merge this snapshot back in: restore the rounding mode
    /// and trap masking it captured, while the exceptions that latched
    /// since are re-raised on top of the captured sticky flags, so nothing
    /// observed in the meantime is lost.
    pub fn update(&self, env: &mut EnvState) -> (r: Result<(), FeError>)
        ensures
            r is Ok,
            *final(env) == old(env).updated_with(self.state()),
    {
        let meantime = env.excepts;
        *env = self.env;
        env.excepts = self.env.excepts.or(meantime);
        Ok(())
    }

    /// Read access to the raw captured state, for interop; this layer
    /// does not interpret it further.
    pub fn inner(&self) -> (r: &EnvState)
        ensures
            *r == self.state(),
    {
        &self.env
    }

    /// Write access to the raw captured state, for interop; what is
    /// written through it bypasses the named operations and is the
    /// caller's responsibility.
    pub fn inner_mut(&mut self) -> (r: &mut EnvState)
        ensures
            *r == old(self).state(),
            final(self).state() == *final(r),
    {
        &mut self.env
    }
}

} // verus!
