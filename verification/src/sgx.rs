//! Enclave-visible data structures: the state-save area (SSA) records, the
//! exit-information word, and the enclave-creation descriptor.

use vstd::prelude::*;

verus! {

use crate::xsave::XsaveRegion;

/// Byte size of the general-purpose register record of one SSA frame.
pub const GPR_SGX_SIZE: usize = 184;

/// Byte size of the miscellaneous exception record of one SSA frame.
pub const MISC_SGX_SIZE: usize = 16;

/// Build-time ceiling on the byte size of one SSA frame.
pub const SSA_FRAME_SIZE: usize = 4096;

/// Exit-type field of an exit-information word caused by a hardware
/// exception.
pub const SGX_EXIT_TYPE_HARDWARE: u32 = 3;

/// Exit-type field of an exit-information word caused by a software
/// exception.
pub const SGX_EXIT_TYPE_SOFTWARE: u32 = 6;

/// Valid bit of an exit-information word.
pub const SGX_EXIT_INFO_VALID: u32 = 0x8000_0000;

/// The exit-reason tag stored into the SSA on an asynchronous exit: the
/// vector of the triggering event, its exit type, and a valid bit.
#[derive(Clone, Copy, Debug, PartialEq, Eq, Structural)]
pub struct SgxExitInfo {
    pub bits: u32,
}

/// The exit-information word recorded for an asynchronous exit on `vec`.
pub open spec fn spec_exit_info_bits(vec: u8) -> u32 {
    if vec == crate::exception::EXCEPTION_BREAKPOINT {
        (vec as u32) | (SGX_EXIT_TYPE_SOFTWARE << 8) | SGX_EXIT_INFO_VALID
    } else {
        (vec as u32) | (SGX_EXIT_TYPE_HARDWARE << 8) | SGX_EXIT_INFO_VALID
    }
}

impl SgxExitInfo {
    /// The word with every bit clear, used for a freshly zeroed SSA.
    pub open spec fn spec_zeroed() -> SgxExitInfo {
        SgxExitInfo { bits: 0 }
    }

    /// Builds the exit-reason tag for an asynchronous exit on vector `vec`.
    pub fn from_vector(vec: u8) -> (r: Self)
        ensures
            r.bits == spec_exit_info_bits(vec),
    {
        if vec == crate::exception::EXCEPTION_BREAKPOINT {
            SgxExitInfo { bits: (vec as u32) | (SGX_EXIT_TYPE_SOFTWARE << 8) | SGX_EXIT_INFO_VALID }
        } else {
            SgxExitInfo { bits: (vec as u32) | (SGX_EXIT_TYPE_HARDWARE << 8) | SGX_EXIT_INFO_VALID }
        }
    }
}

/// The exception detail held in the miscellaneous SSA record: the faulting
/// address and the raw error code.
#[derive(Clone, Copy, Debug, PartialEq, Eq, Structural)]
pub struct ExinfoSgx {
    pub maddr: u64,
    pub errcd: u32,
}

/// The miscellaneous record of one SSA frame.
#[derive(Clone, Copy, Debug, PartialEq, Eq, Structural)]
pub struct MiscSgx {
    pub exinfo: ExinfoSgx,
}

impl MiscSgx {
    /// Builds the record from a faulting address and an error code.
    pub fn new(maddr: usize, errcd: u32) -> (r: Self)
        ensures
            r.exinfo.maddr == maddr as u64,
            r.exinfo.errcd == errcd,
    {
        MiscSgx { exinfo: ExinfoSgx { maddr: maddr as u64, errcd } }
    }

    /// The record with every field zero.
    pub open spec fn spec_zeroed() -> MiscSgx {
        MiscSgx { exinfo: ExinfoSgx { maddr: 0, errcd: 0 } }
    }
}

/// The general-purpose register record of one SSA frame.
///
/// `ursp` and `urbp` hold the user-level stack and frame pointer that the
/// secure world saved on entry; the engine reads them back on an asynchronous
/// exit and never writes them.
#[derive(Clone, Copy, Debug, PartialEq, Eq, Structural)]
pub struct GprSgx {
    pub rax: u64,
    pub rcx: u64,
    pub rdx: u64,
    pub rbx: u64,
    pub rsp: u64,
    pub rbp: u64,
    pub rsi: u64,
    pub rdi: u64,
    pub r8: u64,
    pub r9: u64,
    pub r10: u64,
    pub r11: u64,
    pub r12: u64,
    pub r13: u64,
    pub r14: u64,
    pub r15: u64,
    pub rflags: u64,
    pub rip: u64,
    pub ursp: u64,
    pub urbp: u64,
    pub exit_info: SgxExitInfo,
    pub fs_base: u64,
    pub gs_base: u64,
}

impl GprSgx {
    /// The record with every field zero.
    pub open spec fn spec_zeroed() -> GprSgx {
        GprSgx {
            rax: 0,
            rcx: 0,
            rdx: 0,
            rbx: 0,
            rsp: 0,
            rbp: 0,
            rsi: 0,
            rdi: 0,
            r8: 0,
            r9: 0,
            r10: 0,
            r11: 0,
            r12: 0,
            r13: 0,
            r14: 0,
            r15: 0,
            rflags: 0,
            rip: 0,
            ursp: 0,
            urbp: 0,
            exit_info: SgxExitInfo::spec_zeroed(),
            fs_base: 0,
            gs_base: 0,
        }
    }

    /// Builds the record with every field zero.
    pub fn new() -> (r: Self)
        ensures
            r == GprSgx::spec_zeroed(),
    {
        GprSgx {
            rax: 0,
            rcx: 0,
            rdx: 0,
            rbx: 0,
            rsp: 0,
            rbp: 0,
            rsi: 0,
            rdi: 0,
            r8: 0,
            r9: 0,
            r10: 0,
            r11: 0,
            r12: 0,
            r13: 0,
            r14: 0,
            r15: 0,
            rflags: 0,
            rip: 0,
            ursp: 0,
            urbp: 0,
            exit_info: SgxExitInfo { bits: 0 },
            fs_base: 0,
            gs_base: 0,
        }
    }
}

/// One state-save-area frame: the only channel through which the hypervisor
/// communicates fault and exit information back into secure-world-visible
/// memory. The frame is caller-owned; the engine writes into it but never
/// allocates it.
#[derive(Clone, Debug)]
pub struct StateSaveArea {
    pub gpr: GprSgx,
    pub misc: MiscSgx,
    pub xsave: XsaveRegion,
}

impl StateSaveArea {
    /// A well-formed frame holds a full extended-state image.
    pub open spec fn wf(&self) -> bool {
        self.xsave.wf()
    }

    /// Builds a zeroed frame.
    pub fn new() -> (r: Self)
        ensures
            r.wf(),
            r.gpr == GprSgx::spec_zeroed(),
            r.misc == MiscSgx::spec_zeroed(),
            r.xsave.xstate_bv == 0,
            r.xsave@ =~= Seq::new(crate::xsave::XSAVE_COMPONENTS as nat, |k: int| 0u64),
    {
        StateSaveArea {
            gpr: GprSgx::new(),
            misc: MiscSgx { exinfo: ExinfoSgx { maddr: 0, errcd: 0 } },
            xsave: XsaveRegion::new(),
        }
    }
}

/// Requested attributes of an enclave: the extended-state mask its threads
/// run under.
#[derive(Clone, Copy, Debug, PartialEq, Eq, Structural)]
pub struct SgxAttributes {
    pub xfrm: u64,
}

/// The enclave-creation descriptor: the size of the enclave address range,
/// the per-thread state-save frame size in pages, the size of the auxiliary
/// marshalling buffer, and the requested attributes. Validated once at
/// enclave-creation time; immutable thereafter.
#[derive(Clone, Copy, Debug, PartialEq, Eq, Structural)]
pub struct SgxSecs {
    pub size: u64,
    pub ssa_frame_size: u32,
    pub ms_buf_size: usize,
    pub attributes: SgxAttributes,
}

} // verus!
