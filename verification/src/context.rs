//! Register blocks exchanged between the normal world, the hypervisor and the
//! secure world.

use vstd::prelude::*;

verus! {

/// The general-purpose register block of one virtual CPU.
///
/// The instruction pointer and the stack pointer are held by the virtual-CPU
/// control structure and are reached through
/// [`crate::vmm::VcpuAccessGuestState`], not through this block.
#[derive(Clone, Copy, Debug, PartialEq, Eq, Structural)]
pub struct GuestRegisters {
    pub rax: u64,
    pub rcx: u64,
    pub rdx: u64,
    pub rbx: u64,
    pub rbp: u64,
    pub rsi: u64,
    pub rdi: u64,
    pub r8: u64,
    pub r9: u64,
    pub r10: u64,
    pub r11: u64,
    pub r12: u64,
    pub r13: u64,
    pub r14: u64,
    pub r15: u64,
}

impl GuestRegisters {
    /// The register block with every register zero.
    pub open spec fn spec_zeroed() -> GuestRegisters {
        GuestRegisters {
            rax: 0,
            rcx: 0,
            rdx: 0,
            rbx: 0,
            rbp: 0,
            rsi: 0,
            rdi: 0,
            r8: 0,
            r9: 0,
            r10: 0,
            r11: 0,
            r12: 0,
            r13: 0,
            r14: 0,
            r15: 0,
        }
    }
}

impl Default for GuestRegisters {
    /// Returns the register block with every register zero.
    fn default() -> (r: Self)
        ensures
            r == GuestRegisters::spec_zeroed(),
    {
        GuestRegisters {
            rax: 0,
            rcx: 0,
            rdx: 0,
            rbx: 0,
            rbp: 0,
            rsi: 0,
            rdi: 0,
            r8: 0,
            r9: 0,
            r10: 0,
            r11: 0,
            r12: 0,
            r13: 0,
            r14: 0,
            r15: 0,
        }
    }
}

/// A snapshot of the state of the normal-world kernel, captured when the
/// hypervisor takes over a CPU and restored when it hands the CPU back.
#[derive(Clone, Copy, Debug)]
pub struct LinuxContext {
    pub sp: u64,
    pub pc: u64,
    pub regs: [u64; 31],
    pub elr_el1: u64,
    pub spsr_el1: u64,
    pub sp_el0: u64,
    pub ttbr0_el1: u64,
    pub ttbr1_el1: u64,
    pub tcr_el1: u64,
    pub mair_el1: u64,
    pub amair_el1: u64,
    pub sctlr_el1: u64,
    pub actlr_el1: u64,
    pub esr_el1: u64,
    pub far_el1: u64,
    pub vbar_el1: u64,
}

impl LinuxContext {
    /// Whether every field of the snapshot is zero.
    pub open spec fn spec_is_zeroed(&self) -> bool {
        &&& self.sp == 0
        &&& self.pc == 0
        &&& forall|i: int| 0 <= i < 31 ==> self.regs@[i] == 0
        &&& self.elr_el1 == 0
        &&& self.spsr_el1 == 0
        &&& self.sp_el0 == 0
        &&& self.ttbr0_el1 == 0
        &&& self.ttbr1_el1 == 0
        &&& self.tcr_el1 == 0
        &&& self.mair_el1 == 0
        &&& self.amair_el1 == 0
        &&& self.sctlr_el1 == 0
        &&& self.actlr_el1 == 0
        &&& self.esr_el1 == 0
        &&& self.far_el1 == 0
        &&& self.vbar_el1 == 0
    }

    /// Builds an empty snapshot; the boot path fills it from the stack the
    /// normal-world kernel handed over.
    pub fn new() -> (r: Self)
        ensures
            r.spec_is_zeroed(),
    {
        LinuxContext {
            sp: 0,
            pc: 0,
            regs: [0; 31],
            elr_el1: 0,
            spsr_el1: 0,
            sp_el0: 0,
            ttbr0_el1: 0,
            ttbr1_el1: 0,
            tcr_el1: 0,
            mair_el1: 0,
            amair_el1: 0,
            sctlr_el1: 0,
            actlr_el1: 0,
            esr_el1: 0,
            far_el1: 0,
            vbar_el1: 0,
        }
    }
}

} // verus!
