//! Per-CPU bookkeeping shared between the dispatcher and the enclave engine.

use vstd::prelude::*;

verus! {

/// Size of the per-CPU data area, stack included.
pub const PER_CPU_SIZE: usize = 512 * 1024;

/// What a physical CPU is currently running.
#[derive(Clone, Copy, Debug, PartialEq, Eq, Structural)]
pub enum CpuState {
    /// The hypervisor has not taken over this CPU.
    HvDisabled,
    /// The CPU runs normal-world code under the hypervisor.
    HvEnabled,
    /// The CPU runs secure-world code of an enclave.
    EnclaveRunning,
}

} // verus!
