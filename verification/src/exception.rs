//! Exception vectors, page-fault error-code bits, and the normalized
//! description of a hardware fault that the fix-up policy consumes.

use vstd::prelude::*;

verus! {

use crate::context::GuestRegisters;

// Exception vectors, numbered as the hardware reports them.
pub const EXCEPTION_DIVIDE_ERROR: u8 = 0;
pub const EXCEPTION_DEBUG: u8 = 1;
pub const EXCEPTION_NON_MASKABLE_INTERRUPT: u8 = 2;
pub const EXCEPTION_BREAKPOINT: u8 = 3;
pub const EXCEPTION_OVERFLOW: u8 = 4;
pub const EXCEPTION_BOUND_RANGE_EXCEEDED: u8 = 5;
pub const EXCEPTION_INVALID_OPCODE: u8 = 6;
pub const EXCEPTION_DEVICE_NOT_AVAILABLE: u8 = 7;
pub const EXCEPTION_DOUBLE_FAULT: u8 = 8;
pub const EXCEPTION_INVALID_TSS: u8 = 10;
pub const EXCEPTION_SEGMENT_NOT_PRESENT: u8 = 11;
pub const EXCEPTION_STACK_SEGMENT_FAULT: u8 = 12;
pub const EXCEPTION_GENERAL_PROTECTION_FAULT: u8 = 13;
pub const EXCEPTION_PAGE_FAULT: u8 = 14;
pub const EXCEPTION_FLOATING_POINT: u8 = 16;
pub const EXCEPTION_ALIGNMENT_CHECK: u8 = 17;
pub const EXCEPTION_MACHINE_CHECK: u8 = 18;
pub const EXCEPTION_SIMD_FLOATING_POINT: u8 = 19;
pub const EXCEPTION_VIRTUALIZATION: u8 = 20;
pub const EXCEPTION_CONTROL_PROTECTION: u8 = 21;
pub const EXCEPTION_SECURITY: u8 = 30;
pub const EXCEPTION_IRQ_START: u8 = 32;
pub const EXCEPTION_IRQ_END: u8 = 255;

// Page-fault error-code bits, as defined by the hardware.
pub const PF_PROTECTION_VIOLATION: u32 = 0x1;
pub const PF_CAUSED_BY_WRITE: u32 = 0x2;
pub const PF_USER_MODE: u32 = 0x4;
pub const PF_MALFORMED_TABLE: u32 = 0x8;
pub const PF_INSTRUCTION_FETCH: u32 = 0x10;

/// Mask of all hardware-defined page-fault error-code bits.
pub const PF_HW_ERROR_CODE_MASK: u32 = 0x1f;

// Enclave-specific page-fault error-code bits, occupying otherwise-unused
// high bits of the hardware error code.

/// The page fault was caused by an enclave-page attribute mismatch.
pub const PF_EPCM_ATTR_MISMATCH: u32 = 0x8000;

/// The access that caused the page fault was a shared-memory fetch; on resume
/// the secure world re-synchronizes its private mapping for the address from
/// the shared page table.
pub const PF_SHARED_MEM_FETCH: u32 = 0x8000_0000;

/// A normalized description of a hardware fault: a vector, an optional raw
/// error code, and an optional faulting virtual address.
#[derive(Clone, Copy, Debug, PartialEq, Eq)]
pub struct ExceptionInfo {
    pub exception_type: u8,
    pub error_code: Option<u32>,
    pub cr2: Option<u64>,
}

impl ExceptionInfo {
    /// Builds an [`ExceptionInfo`] from its three components.
    pub fn new(exception_type: u8, error_code: Option<u32>, fault_address: Option<u64>) -> (r:
        Self)
        ensures
            r == (ExceptionInfo { exception_type, error_code, cr2: fault_address }),
    {
        ExceptionInfo { exception_type, error_code, cr2: fault_address }
    }
}

/// The register block pushed on the hypervisor stack when an exception is
/// taken while the hypervisor itself runs.
#[derive(Clone, Copy, Debug)]
pub struct ExceptionFrame {
    pub regs: GuestRegisters,
    pub num: usize,
    pub error_code: usize,
    pub rip: usize,
    pub cs: usize,
    pub rflags: usize,
    pub rsp: usize,
    pub ss: usize,
}

} // verus!
