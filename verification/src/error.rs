//! The ways in which a lifecycle operation can fail.

use vstd::prelude::*;

verus! {

/// Why a lifecycle operation did not do what was asked.
#[derive(Clone, Copy, Debug, PartialEq, Eq, Structural)]
pub enum WindowError {
    /// The native side answered a creation request with the null handle. This
    /// is a lack of resources, not a passing condition: trying again is
    /// pointless.
    AllocationFailed,
    /// The backend has no way to perform the operation on its system.
    Unsupported,
}

impl WindowError {
    /// A short description for diagnostics.
    pub fn message(&self) -> (text: &'static str)
        ensures
            text@ == (match *self {
                WindowError::AllocationFailed => "Failed to create window!"@,
                WindowError::Unsupported => "not supported on this platform"@,
            }),
    {
        match self {
            WindowError::AllocationFailed => "Failed to create window!",
            WindowError::Unsupported => "not supported on this platform",
        }
    }
}

} // verus!
