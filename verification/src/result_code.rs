//! Result codes handed back to the host runtime.

use vstd::prelude::*;

verus! {

/// The outcome of a hook, as the host runtime numbers it.
#[allow(non_camel_case_types)]
#[derive(Debug, Clone, Copy, PartialEq, Eq, Structural)]
pub enum PamResultCode {
    PAM_SUCCESS,
    PAM_SYSTEM_ERR,
    PAM_PERM_DENIED,
    PAM_AUTH_ERR,
    PAM_USER_UNKNOWN,
    PAM_CONV_ERR,
    PAM_IGNORE,
    PAM_ABORT,
}

impl PamResultCode {
    /// The number that the host runtime gives this code.
    pub open spec fn spec_code(self) -> int {
        match self {
            PamResultCode::PAM_SUCCESS => 0,
            PamResultCode::PAM_SYSTEM_ERR => 4,
            PamResultCode::PAM_PERM_DENIED => 6,
            PamResultCode::PAM_AUTH_ERR => 7,
            PamResultCode::PAM_USER_UNKNOWN => 10,
            PamResultCode::PAM_CONV_ERR => 19,
            PamResultCode::PAM_IGNORE => 25,
            PamResultCode::PAM_ABORT => 26,
        }
    }

    /// The number that the host runtime gives this code.
    pub fn code(&self) -> (r: i32)
        ensures
            r == self.spec_code(),
    {
        match self {
            PamResultCode::PAM_SUCCESS => 0,
            PamResultCode::PAM_SYSTEM_ERR => 4,
            PamResultCode::PAM_PERM_DENIED => 6,
            PamResultCode::PAM_AUTH_ERR => 7,
            PamResultCode::PAM_USER_UNKNOWN => 10,
            PamResultCode::PAM_CONV_ERR => 19,
            PamResultCode::PAM_IGNORE => 25,
            PamResultCode::PAM_ABORT => 26,
        }
    }
}

} // verus!
