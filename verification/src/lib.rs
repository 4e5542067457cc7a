//! A verified core of a bare-metal hypervisor that hosts a secure-enclave
//! execution mode next to an unmodified guest kernel.
//!
//! The library contains the enclave thread-state transition engine
//! ([`enclave::EnclaveThreadState`]), the exception classification and fix-up
//! policy ([`enclave::Enclave::fixup_exception`]), the enclave-creation
//! validator ([`sgx::SgxSecs`]), and the architecture-neutral virtual-CPU
//! capability traits ([`vmm::VcpuAccessGuestState`],
//! [`enclave::VcpuAccessEnclaveState`]) that the engine is written against.
//! Hardware backends, boot trampolines and device drivers live outside of it.

pub mod context;
pub mod cpuid;
pub mod error;
pub mod enclave;
pub mod exception;
pub mod hypercall;
pub mod memory;
pub mod page_table;
pub mod percpu;
pub mod segmentation;
pub mod sgx;
pub mod vmm;
pub mod xsave;

use vstd::prelude::*;

verus! {

use crate::cpuid::{CpuFeatures, FEATURE_EL2};
use crate::error::{HvError, HvResult};

/// Size of the hypervisor stack of one CPU.
pub const HV_STACK_SIZE: usize = 512 * 1024;

/// Checks that the CPU supports the virtualization features the hypervisor
/// needs before any of them is touched.
pub fn check_hypervisor_feature() -> (r: HvResult)
    ensures
        r is Ok <==> crate::cpuid::spec_baseline_features() & FEATURE_EL2 != 0,
{
    if !CpuFeatures::new().has_virtualization() {
        return Err(HvError::NoDevice);
    }
    Ok(())
}

} // verus!
