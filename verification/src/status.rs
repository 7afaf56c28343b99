//! Driver status words and the error made from a failing one.

use vstd::prelude::*;
use crate::bindings::VAStatus;

verus! {

/// A status word that is known not to be the success status.
#[derive(Debug)]
pub struct VaError(i32);

impl VaError {
    #[verifier::type_invariant]
    spec fn is_failure(&self) -> bool {
        self.0 != 0
    }

    /// The status word that this error carries.
    pub closed spec fn code(&self) -> int {
        self.0 as int
    }

    /// Returns the status word of this error. It is never the success status.
    pub fn va_status(&self) -> (status: VAStatus)
        ensures
            status == self.code(),
            status != 0,
    {
        proof {
            use_type_invariant(self);
        }
        self.0
    }
}

/// Turns the status word of a driver call into a `Result`: `Ok` for the
/// success status, and for any other word an error that carries it.
pub fn va_check(code: VAStatus) -> (r: Result<(), VaError>)
    ensures
        r is Ok <==> code == 0,
        r matches Err(e) ==> e.code() == code,
{
    if code == 0 {
        Ok(())
    } else {
        Err(VaError(code))
    }
}

/// A status word that has not been looked at yet.
#[must_use]
pub struct VaStatus(pub VAStatus);

impl VaStatus {
    /// Returns `Ok(())` if this status is the success status, and an error
    /// that carries the status otherwise.
    pub fn check(&self) -> (r: Result<(), VaError>)
        ensures
            r is Ok <==> self.0 == 0,
            r matches Err(e) ==> e.code() == self.0,
    {
        va_check(self.0)
    }
}

} // verus!
