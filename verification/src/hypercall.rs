//! The hypercall codes of the hand-off protocol between the hypervisor and
//! the host-side dispatcher.

use vstd::prelude::*;

verus! {

/// Resume-request code placed in the return-value register after an
/// asynchronous exit: the host-side dispatcher recognizes it and re-enters
/// the enclave through the resume path. Part of the stable hand-off ABI.
pub const HYPERCALL_ENCLAVE_RESUME: u64 = 0x8000_0001;

} // verus!
