use vstd::prelude::*;
use libc::c_int;

use crate::error::Error;

verus! {

/// Evidence that the primitive library's process-wide initialization has
/// completed. It proves that only when built from the status that the
/// library's initialization routine actually returned. The operations that
/// call the primitive ask for it; the decision functions of this library,
/// which only read a call's outcome, do not need it.
pub struct Initialized {
    first: bool,
}

impl Initialized {
    /// Whether this token came from the call that performed the initialization
    /// (status 0), rather than from one that found it already done (status 1).
    pub closed spec fn spec_first(&self) -> bool {
        self.first
    }

    /// Reads the status of the library's initialization routine: 0 when this
    /// call initialized it, 1 when it was already initialized, anything else a
    /// failure, reported as `Error::Initialization`.
    pub fn from_init_status(status: c_int) -> (r: Result<Initialized, Error>)
        ensures
            r is Ok <==> (status == 0 || status == 1),
            r matches Ok(t) ==> t.spec_first() == (status == 0),
            r is Err ==> r->Err_0 == Error::Initialization,
    {
        if status == 0 {
            Ok(Initialized { first: true })
        } else if status == 1 {
            Ok(Initialized { first: false })
        } else {
            Err(Error::Initialization)
        }
    }

    /// Whether this token came from the call that performed the initialization.
    pub fn is_first(&self) -> (r: bool)
        ensures
            r == self.spec_first(),
    {
        self.first
    }
}

} // verus!
