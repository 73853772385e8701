//! Safe, verified abstraction over the floating point environment control
//! facility: typed exception flags, a rounding mode enumeration, and full
//! environment snapshots with a hold/update protocol.
//!
//! The types here operate on an explicit [`EnvState`] value that models the
//! platform's floating point environment (sticky exception flags, rounding
//! mode, trap masking). The raw platform calls that read and write the live
//! hardware state stand outside this crate; they exchange plain values with
//! these types through `as_raw`/`from_raw` and the [`result`] convention.

use vstd::prelude::*;

pub mod env;
pub mod flags;
pub mod laws;
pub mod round;
pub mod status;

pub use env::EnvState;
pub use env::FEnv;
pub use flags::FExcept;
pub use round::FRound;
pub use status::FeError;
pub use status::result;

verus! {

/// Install `flags` as the rounding mode in force. Pure delegation to
/// [`FRound::set`], provided for call-site ergonomics.
pub fn set_rounding_mode(flags: FRound, env: &mut EnvState) -> (r: Result<(), FeError>)
    ensures
        r is Ok,
        *final(env) == old(env).with_round(flags),
{
    flags.set(env)
}

/// Read the rounding mode in force. Pure delegation to
/// [`FRound::from_env`], provided for call-site ergonomics.
pub fn get_rounding_mode(env: &EnvState) -> (r: FRound)
    ensures
        r == env.round,
{
    FRound::from_env(env)
}

} // verus!
