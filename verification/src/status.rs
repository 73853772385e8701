//! The result convention.
//!
//! Every fallible operation of the platform facility reports an integer
//! status: zero on success, a nonzero code on failure. [`result`] normalizes
//! such a status into a `Result`, so success is the absence of an error
//! value, never a zero-valued error; [`FeError`] carries the raw nonzero
//! code verbatim as the whole diagnostic payload.

use vstd::prelude::*;

verus! {

/// A failed call into the floating point environment facility, holding the
/// facility's raw status code verbatim. The code is never zero.
#[derive(Clone, Copy, Debug, PartialEq, Eq, Structural)]
pub struct FeError {
    code: i32,
}

impl FeError {
    /// The raw status code this error carries.
    pub closed spec fn code_spec(self) -> i32 {
        self.code
    }

    /// A carried code is always a failure code, never zero.
    pub open spec fn wf(self) -> bool {
        self.code_spec() != 0
    }

    /// The raw nonzero status code the facility reported.
    pub fn code(self) -> (r: i32)
        ensures
            r == self.code_spec(),
    {
        self.code
    }
}

/// Normalize a raw status code: zero becomes success, any other code
/// becomes an error carrying that code verbatim.
pub fn result(code: i32) -> (r: Result<(), FeError>)
    ensures
        code == 0 <==> r is Ok,
        r matches Err(e) ==> e.code_spec() == code && e.wf(),
{
    if code == 0 {
        Ok(())
    } else {
        Err(FeError { code })
    }
}

} // verus!
