//! Error taxonomy of the hypervisor core.
//!
//! Configuration and validation failures are reported to the caller through
//! [`HvError`]; the caller decides whether a failure is recoverable
//! (a rejected enclave descriptor) or terminal (a failed register-state
//! commit, after which the owning virtual CPU must be torn down).

use vstd::prelude::*;

verus! {

/// An error reported by the hypervisor core.
#[derive(Clone, Copy, Debug, PartialEq, Eq, Structural)]
pub enum HvError {
    /// A caller-supplied parameter was rejected by validation, or a protocol
    /// invariant did not hold (for example a page fault without a fault
    /// address).
    InvalidParam,
    /// A hardware capability that the hypervisor needs is absent.
    NoDevice,
}

/// Result type used throughout the hypervisor core.
pub type HvResult<T = ()> = Result<T, HvError>;

impl HvError {
    /// A short description of the error, for diagnostics kept outside the
    /// verified core.
    pub fn as_str(&self) -> (r: &'static str)
        ensures
            r@ == self.spec_str(),
    {
        match self {
            HvError::InvalidParam => "invalid argument",
            HvError::NoDevice => "no such device",
        }
    }

    /// The description returned by [`HvError::as_str`].
    pub open spec fn spec_str(&self) -> Seq<char> {
        match self {
            HvError::InvalidParam => "invalid argument"@,
            HvError::NoDevice => "no such device"@,
        }
    }
}

} // verus!
