//! Status codes returned by the hardware subsystems.
//!
//! Every subsystem call yields a raw numeric status; zero means success and
//! any other value is a failure, not classified further.

use vstd::prelude::*;

verus! {

/// A non-zero status code returned by a hardware subsystem call.
#[derive(Clone, Copy, Debug, PartialEq, Eq, Structural)]
pub struct RcError {
    pub code: u32,
}

impl RcError {
    /// Wraps a raw status code in an error value.
    pub fn from_raw(rc: u32) -> (r: Self)
        ensures
            r.code == rc,
    {
        RcError { code: rc }
    }
}

/// Converts a raw status code into a result: zero is success, anything else
/// carries the code as a failure.
pub fn result_from_rc(rc: u32) -> (r: Result<u32, RcError>)
    ensures
        rc == 0 <==> r is Ok,
        r is Ok ==> r->Ok_0 == rc,
        r is Err ==> r->Err_0.code == rc,
{
    if rc == 0 {
        Ok(rc)
    } else {
        Err(RcError::from_raw(rc))
    }
}

} // verus!
