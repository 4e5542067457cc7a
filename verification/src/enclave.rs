//! The enclave thread-state transition engine and the exception fix-up
//! policy.
//!
//! The engine moves register and control state between the normal-world and
//! secure-world representations through the capability traits alone; the
//! spec functions beside each operation are its mathematical model, and the
//! proof functions at the end of the module state the laws that hold of the
//! composed transitions.

use vstd::prelude::*;

verus! {

use crate::context::GuestRegisters;
use crate::error::{HvError, HvResult};
use crate::memory::{GuestVirtAddr, HostPhysAddr};
use crate::sgx::{GprSgx, MiscSgx, SgxExitInfo, StateSaveArea};
use crate::vmm::{VcpuAccessGuestState, VcpuStateView, Vcpu};
use crate::xsave::{
    spec_image_consistent, spec_mask_bit, spec_restore_components, spec_save_components,
    XsaveRegion, XsaveState,
};
use crate::hypercall::HYPERCALL_ENCLAVE_RESUME;
use crate::exception::{
    ExceptionInfo, EXCEPTION_GENERAL_PROTECTION_FAULT, EXCEPTION_INVALID_OPCODE,
    EXCEPTION_PAGE_FAULT, PF_PROTECTION_VIOLATION, PF_SHARED_MEM_FETCH, PF_USER_MODE,
};
use crate::memory::{
    align_down, ranges_contain, spec_align_down, spec_ranges_contain, AddrRange,
};
use crate::percpu::CpuState;
use crate::sgx::ExinfoSgx;
use vstd::rwlock::RwLock;

/// The lower two bits of an extended-state mask name the legacy
/// floating-point and SIMD components; every enclave must carry at least
/// them.
pub const SECS_XFRM_TEMPLATE: u64 = 0x3;

/// Bit of the fourth indexed control register that enables the legacy
/// floating-point save instructions.
pub const CR4_OSFXSR: u64 = 0x200;

/// Bit of the fourth indexed control register that enables the
/// extended-state-enable register.
pub const CR4_OSXSAVE: u64 = 0x4_0000;

/// Bit of the extended-feature-enable register that enables the fast
/// system-call instructions.
pub const EFER_SYSTEM_CALL_EXTENSIONS: u64 = 0x1;

/// Interrupt-enable bit of the flags register.
pub const RFLAGS_INTERRUPT_FLAG: u64 = 0x200;

/// Build-time policy: whether interrupts are enabled while secure-world code
/// runs.
pub const ENCLAVE_INTERRUPT_ENABLED: bool = false;

/// The exception information written into the state-save area on an
/// asynchronous exit: the vector and, when the fault carried detail, the
/// faulting address and error code.
#[derive(Clone, Copy, Debug, PartialEq, Eq)]
pub struct AexException {
    pub vec: u8,
    pub misc: Option<MiscSgx>,
}

/// A snapshot of the control-flow and addressing state needed to safely run
/// one world: flags, the two segment-base registers, the
/// extended-feature-enable and extended-state-enable values, and the two
/// page-table roots. Created fresh on every entry or resume; consumed and
/// discarded on the matching exit.
#[derive(Clone, Copy, Debug, PartialEq, Eq, Structural)]
pub struct EnclaveThreadState {
    pub rflags: u64,
    pub fs_base: u64,
    pub gs_base: u64,
    pub xcr0: u64,
    pub hv_page_table_root: HostPhysAddr,
    pub page_table_root: HostPhysAddr,
    pub efer: u64,
    pub idtr_base: u64,
    pub idtr_limit: u32,
}

impl EnclaveThreadState {
    /// The snapshot with every field zero.
    pub open spec fn spec_zeroed() -> EnclaveThreadState {
        EnclaveThreadState {
            rflags: 0,
            fs_base: 0,
            gs_base: 0,
            xcr0: 0,
            hv_page_table_root: 0,
            page_table_root: 0,
            efer: 0,
            idtr_base: 0,
            idtr_limit: 0,
        }
    }
}

impl Default for EnclaveThreadState {
    /// Returns the snapshot with every field zero.
    fn default() -> (r: Self)
        ensures
            r == EnclaveThreadState::spec_zeroed(),
    {
        EnclaveThreadState {
            rflags: 0,
            fs_base: 0,
            gs_base: 0,
            xcr0: 0,
            hv_page_table_root: 0,
            page_table_root: 0,
            efer: 0,
            idtr_base: 0,
            idtr_limit: 0,
        }
    }
}

/// The snapshot that captures the control state of `v`.
pub open spec fn spec_capture_state(v: VcpuStateView) -> EnclaveThreadState {
    EnclaveThreadState {
        rflags: v.rflags,
        fs_base: v.fs_base,
        gs_base: v.gs_base,
        xcr0: v.xcr0,
        hv_page_table_root: v.hv_pt_root,
        page_table_root: v.pt_root,
        efer: v.efer,
        idtr_base: v.idtr_base,
        idtr_limit: v.idtr_limit,
    }
}

/// The state of `v` after the snapshot `s` is stored into the control
/// structure with `entry_ip` as the next instruction pointer, directing the
/// next entry to the secure world iff `is_enter`.
pub open spec fn spec_store_state(
    v: VcpuStateView,
    entry_ip: u64,
    s: EnclaveThreadState,
    is_enter: bool,
) -> VcpuStateView {
    VcpuStateView {
        rip: entry_ip,
        rflags: s.rflags,
        fs_base: s.fs_base,
        gs_base: s.gs_base,
        efer: s.efer,
        xcr0: s.xcr0,
        hv_pt_root: s.hv_page_table_root,
        pt_root: s.page_table_root,
        idtr_base: s.idtr_base,
        idtr_limit: s.idtr_limit,
        secure: is_enter,
        ..v
    }
}

/// Access to the enclave-relevant state of one virtual CPU, layered on
/// [`VcpuAccessGuestState`]: loading and storing an
/// [`EnclaveThreadState`] snapshot, and querying the page-table roots.
///
/// A store that fails leaves the virtual CPU indeterminate; the caller must
/// treat the failure as fatal and tear the virtual CPU down.
pub trait VcpuAccessEnclaveState: VcpuAccessGuestState {
    /// Captures the current control state as a snapshot.
    fn load_enclave_thread_state(&self) -> (r: HvResult<EnclaveThreadState>)
        ensures
            r matches Ok(s) ==> s == spec_capture_state(self.gview());

    /// Stores a snapshot into the control structure; the stored values
    /// become visible to the next instruction the corresponding world
    /// executes.
    fn store_enclave_thread_state(
        &mut self,
        entry_ip: u64,
        state: &EnclaveThreadState,
        is_enter: bool,
    ) -> (r: HvResult)
        ensures
            r is Ok ==> final(self).gview() == spec_store_state(
                old(self).gview(),
                entry_ip,
                *state,
                is_enter,
            );

    /// The page-table root of the hypervisor itself.
    fn hv_page_table_root(&self) -> (r: HostPhysAddr)
        ensures
            r == self.gview().hv_pt_root;

    /// The page-table root the guest currently runs under.
    fn guest_page_table_root(&self) -> (r: HostPhysAddr)
        ensures
            r == self.gview().pt_root;
}

impl VcpuAccessEnclaveState for Vcpu {
    fn load_enclave_thread_state(&self) -> HvResult<EnclaveThreadState> {
        Ok(
            EnclaveThreadState {
                rflags: self.rflags,
                fs_base: self.fs_base,
                gs_base: self.gs_base,
                xcr0: self.xcr0,
                hv_page_table_root: self.hv_pt_root,
                page_table_root: self.pt_root,
                efer: self.efer,
                idtr_base: self.idtr_base,
                idtr_limit: self.idtr_limit,
            },
        )
    }

    fn store_enclave_thread_state(
        &mut self,
        entry_ip: u64,
        state: &EnclaveThreadState,
        is_enter: bool,
    ) -> HvResult {
        self.rip = entry_ip;
        self.rflags = state.rflags;
        self.fs_base = state.fs_base;
        self.gs_base = state.gs_base;
        self.efer = state.efer;
        self.xcr0 = state.xcr0;
        self.hv_pt_root = state.hv_page_table_root;
        self.pt_root = state.page_table_root;
        self.idtr_base = state.idtr_base;
        self.idtr_limit = state.idtr_limit;
        self.secure = is_enter;
        Ok(())
    }

    fn hv_page_table_root(&self) -> HostPhysAddr {
        self.hv_pt_root
    }

    fn guest_page_table_root(&self) -> HostPhysAddr {
        self.pt_root
    }
}

/// Whether the requested extended-state mask passes validation against the
/// hardware-reported state of `v`: the legacy save instructions must be
/// enabled; when the extended-state-enable register is in use the mask must
/// be a subset of it, and otherwise the mask must equal the minimal legacy
/// template.
pub open spec fn spec_xfrm_valid(v: VcpuStateView, xfrm: u64) -> bool {
    &&& v.crs[4] & CR4_OSFXSR != 0
    &&& if v.crs[4] & CR4_OSXSAVE != 0 {
        v.xcr0 & xfrm == xfrm
    } else {
        xfrm == SECS_XFRM_TEMPLATE
    }
}

/// The flags-register value used while secure-world code runs: the
/// interrupt-enable bit is forced to the build-time policy.
pub open spec fn spec_enter_rflags(rflags: u64) -> u64 {
    if ENCLAVE_INTERRUPT_ENABLED {
        rflags | RFLAGS_INTERRUPT_FLAG
    } else {
        rflags & !RFLAGS_INTERRUPT_FLAG
    }
}

/// The secure-world snapshot built for an entry or resume: flags forced to
/// the interrupt policy, the caller's segment bases, the requested
/// extended-state mask, fast system calls disabled, an empty descriptor
/// table, and the two page-table roots.
pub open spec fn spec_enter_state(
    rflags: u64,
    efer: u64,
    fs_base: u64,
    gs_base: u64,
    xfrm: u64,
    hv_root: HostPhysAddr,
    pt_root: HostPhysAddr,
) -> EnclaveThreadState {
    EnclaveThreadState {
        rflags,
        fs_base,
        gs_base,
        xcr0: xfrm,
        hv_page_table_root: hv_root,
        page_table_root: pt_root,
        efer: efer & !EFER_SYSTEM_CALL_EXTENSIONS,
        idtr_base: 0,
        idtr_limit: 0,
    }
}

/// The state of a virtual CPU after an enclave entry: the argument
/// registers carry the save-area nesting index and the resumption
/// instruction pointer, and the secure-world snapshot is stored.
pub open spec fn spec_enter_transition(
    v: VcpuStateView,
    entry_ip: u64,
    fs_base: u64,
    gs_base: u64,
    xfrm: u64,
    cssa: u32,
    hv_root: HostPhysAddr,
    pt_root: HostPhysAddr,
) -> VcpuStateView {
    let v1 = VcpuStateView {
        regs: GuestRegisters { rax: cssa as u64, rcx: v.rip, ..v.regs },
        ..v
    };
    spec_store_state(
        v1,
        entry_ip,
        spec_enter_state(
            spec_enter_rflags(v.rflags),
            v.efer,
            fs_base,
            gs_base,
            xfrm,
            hv_root,
            pt_root,
        ),
        true,
    )
}

/// The state of a virtual CPU after an enclave exit: the normal-world
/// snapshot is restored with `exit_ip` as the next instruction pointer, and
/// the asynchronous-exit-pointer register carries `aep`.
pub open spec fn spec_exit_transition(
    v: VcpuStateView,
    exit_ip: u64,
    aep: u64,
    nw: EnclaveThreadState,
) -> VcpuStateView {
    let v1 = spec_store_state(v, exit_ip, nw, false);
    VcpuStateView { regs: GuestRegisters { rcx: aep, ..v1.regs }, ..v1 }
}

/// The general-purpose record written into the state-save area on an
/// asynchronous exit: the live register block, stack pointer, flags,
/// instruction pointer and segment bases of `v`, and the exit-reason tag
/// for `vec`. The user-level stack and frame pointers of `old_gpr` are
/// preserved: the engine never writes them.
pub open spec fn spec_aex_gpr(v: VcpuStateView, old_gpr: GprSgx, vec: u8) -> GprSgx {
    GprSgx {
        rax: v.regs.rax,
        rcx: v.regs.rcx,
        rdx: v.regs.rdx,
        rbx: v.regs.rbx,
        rsp: v.rsp,
        rbp: v.regs.rbp,
        rsi: v.regs.rsi,
        rdi: v.regs.rdi,
        r8: v.regs.r8,
        r9: v.regs.r9,
        r10: v.regs.r10,
        r11: v.regs.r11,
        r12: v.regs.r12,
        r13: v.regs.r13,
        r14: v.regs.r14,
        r15: v.regs.r15,
        rflags: v.rflags,
        rip: v.rip,
        ursp: old_gpr.ursp,
        urbp: old_gpr.urbp,
        exit_info: SgxExitInfo { bits: crate::sgx::spec_exit_info_bits(vec) },
        fs_base: v.fs_base,
        gs_base: v.gs_base,
    }
}

/// The miscellaneous record after an asynchronous exit: overwritten with the
/// fault detail when the triggering exception carried one, untouched
/// otherwise.
pub open spec fn spec_aex_misc(old_misc: MiscSgx, excep: AexException) -> MiscSgx {
    match excep.misc {
        Some(m) => MiscSgx { exinfo: m.exinfo },
        None => old_misc,
    }
}

/// The scrubbed register block handed to the host after an asynchronous
/// exit: no secure-world data remains, and three registers carry the
/// hand-off triple of the resume protocol — the resume-request code, the
/// thread-control-structure address and the asynchronous-exit pointer. The
/// frame pointer is the user-level one saved in the state-save area.
pub open spec fn spec_aex_scrubbed_regs(tcs_vaddr: GuestVirtAddr, aep: u64, urbp: u64) -> GuestRegisters {
    GuestRegisters {
        rax: HYPERCALL_ENCLAVE_RESUME,
        rbx: tcs_vaddr as u64,
        rcx: aep,
        rbp: urbp,
        ..GuestRegisters::spec_zeroed()
    }
}

/// The state of a virtual CPU after an asynchronous exit: the normal-world
/// snapshot is restored with the asynchronous-exit pointer as the next
/// instruction pointer, the register block is scrubbed to the hand-off
/// triple, and the stack pointer is the user-level one saved in the
/// state-save area.
pub open spec fn spec_aex_vcpu_transition(
    v: VcpuStateView,
    aep: u64,
    tcs_vaddr: GuestVirtAddr,
    nw: EnclaveThreadState,
    ursp: u64,
    urbp: u64,
) -> VcpuStateView {
    let v1 = spec_store_state(v, aep, nw, false);
    VcpuStateView { regs: spec_aex_scrubbed_regs(tcs_vaddr, aep, urbp), rsp: ursp, ..v1 }
}

/// The register block after a resume: every general-purpose register is
/// read back from the state-save area.
pub open spec fn spec_resume_regs(gpr: GprSgx) -> GuestRegisters {
    GuestRegisters {
        rax: gpr.rax,
        rcx: gpr.rcx,
        rdx: gpr.rdx,
        rbx: gpr.rbx,
        rbp: gpr.rbp,
        rsi: gpr.rsi,
        rdi: gpr.rdi,
        r8: gpr.r8,
        r9: gpr.r9,
        r10: gpr.r10,
        r11: gpr.r11,
        r12: gpr.r12,
        r13: gpr.r13,
        r14: gpr.r14,
        r15: gpr.r15,
    }
}

/// The state of a virtual CPU after a resume: the secure-world snapshot is
/// rebuilt from the state-save area and stored with the saved instruction
/// pointer, and the register block and stack pointer are read back from it.
pub open spec fn spec_resume_transition(
    v: VcpuStateView,
    xfrm: u64,
    hv_root: HostPhysAddr,
    pt_root: HostPhysAddr,
    gpr: GprSgx,
) -> VcpuStateView {
    let v1 = spec_store_state(
        v,
        gpr.rip,
        spec_enter_state(gpr.rflags, v.efer, gpr.fs_base, gpr.gs_base, xfrm, hv_root, pt_root),
        true,
    );
    VcpuStateView { regs: spec_resume_regs(gpr), rsp: gpr.rsp, ..v1 }
}

/// No bit of the all-zero mask is set.
pub proof fn lemma_mask_bit_zero()
    ensures
        forall|k: int| !spec_mask_bit(0u64, k),
{
    assert forall|k: int| !spec_mask_bit(0u64, k) by {
        let ku = k as u64;
        assert((0u64 >> ku) & 1 == 0) by (bit_vector);
    }
}

impl EnclaveThreadState {
    /// Validates the requested extended-state mask against the current
    /// hardware-reported state; see [`spec_xfrm_valid`]. Runs identically on
    /// entry and resume, before any state is touched.
    fn validate_xfrm<V: VcpuAccessEnclaveState>(vcpu: &V, xfrm: u64) -> (r: HvResult)
        requires
            vcpu.gview().crs.len() > 4,
        ensures
            r is Ok <==> spec_xfrm_valid(vcpu.gview(), xfrm),
            r is Err ==> r == HvResult::<()>::Err(HvError::InvalidParam),
    {
        let cr4 = vcpu.cr(4);
        if cr4 & CR4_OSFXSR == 0 {
            return Err(HvError::InvalidParam);
        }
        if cr4 & CR4_OSXSAVE != 0 {
            if vcpu.xcr0() & xfrm != xfrm {
                return Err(HvError::InvalidParam);
            }
        } else if xfrm != SECS_XFRM_TEMPLATE {
            return Err(HvError::InvalidParam);
        }
        Ok(())
    }

    /// Enters the secure world: validates the extended-state mask, forces
    /// the flags register to the interrupt policy, disables fast system
    /// calls, places the nesting index and the resumption instruction
    /// pointer in the argument registers, and stores the secure-world
    /// snapshot. A rejected mask leaves every state untouched; a failed
    /// store is fatal for the virtual CPU.
    pub fn enclave_enter<V: VcpuAccessEnclaveState>(
        vcpu: &mut V,
        entry_ip: u64,
        fs_base: u64,
        gs_base: u64,
        xfrm: u64,
        cssa: u32,
        hv_page_table_root: HostPhysAddr,
        page_table_root: HostPhysAddr,
    ) -> (r: HvResult)
        requires
            old(vcpu).gview().crs.len() > 4,
        ensures
            !spec_xfrm_valid(old(vcpu).gview(), xfrm) ==> r == HvResult::<()>::Err(
                HvError::InvalidParam,
            ) && final(vcpu).gview() == old(vcpu).gview(),
            r is Ok ==> spec_xfrm_valid(old(vcpu).gview(), xfrm) && final(vcpu).gview()
                == spec_enter_transition(
                old(vcpu).gview(),
                entry_ip,
                fs_base,
                gs_base,
                xfrm,
                cssa,
                hv_page_table_root,
                page_table_root,
            ),
    {
        match Self::validate_xfrm(vcpu, xfrm) {
            Err(e) => {
                return Err(e);
            },
            Ok(()) => {},
        }

        let mut rflags = vcpu.rflags();
        if ENCLAVE_INTERRUPT_ENABLED {
            rflags = rflags | RFLAGS_INTERRUPT_FLAG;
        } else {
            rflags = rflags & !RFLAGS_INTERRUPT_FLAG;
        }
        // The secure world may not invoke host system calls directly.
        let efer = vcpu.efer() & !EFER_SYSTEM_CALL_EXTENSIONS;
        let sec_world_state = EnclaveThreadState {
            rflags,
            fs_base,
            gs_base,
            xcr0: xfrm,
            hv_page_table_root,
            page_table_root,
            efer,
            idtr_base: 0,
            idtr_limit: 0,
        };
        let resume_ip = vcpu.instr_pointer();
        let regs = vcpu.regs_mut();
        regs.rax = cssa as u64;
        regs.rcx = resume_ip;
        vcpu.store_enclave_thread_state(entry_ip, &sec_world_state, true)
    }

    /// Leaves the secure world: restores the caller-supplied normal-world
    /// snapshot — assumed pre-validated by whoever captured it — and writes
    /// the asynchronous-exit pointer into its register. No validation is
    /// performed.
    pub fn enclave_exit<V: VcpuAccessEnclaveState>(
        vcpu: &mut V,
        exit_ip: u64,
        aep: u64,
        normal_world_state: &EnclaveThreadState,
    ) -> (r: HvResult)
        ensures
            r is Ok ==> final(vcpu).gview() == spec_exit_transition(
                old(vcpu).gview(),
                exit_ip,
                aep,
                *normal_world_state,
            ),
    {
        match vcpu.store_enclave_thread_state(exit_ip, normal_world_state, false) {
            Err(e) => {
                return Err(e);
            },
            Ok(()) => {},
        }
        let regs = vcpu.regs_mut();
        regs.rcx = aep;
        Ok(())
    }

    /// Handles an asynchronous exit: copies the live register block, flags,
    /// instruction pointer and segment bases into the state-save area
    /// together with the exit-reason tag and any fault detail, saves the
    /// live extended state governed by `xfrm` into the save-area image and
    /// resets it to its initial values, restores the normal-world snapshot
    /// directed at the asynchronous-exit handler, and scrubs the register
    /// block down to the hand-off triple. A failed store is fatal: the
    /// secure-world context is unrecoverable and the caller must tear the
    /// enclave down.
    pub fn enclave_aex<V: VcpuAccessEnclaveState>(
        vcpu: &mut V,
        aex_excep: AexException,
        aep: u64,
        xfrm: u64,
        tcs_vaddr: GuestVirtAddr,
        ssa: &mut StateSaveArea,
        normal_world_state: &EnclaveThreadState,
        xstate: &mut XsaveState,
    ) -> (r: HvResult)
        requires
            old(ssa).wf(),
            old(xstate).wf(),
        ensures
            final(ssa).wf(),
            final(xstate).wf(),
            final(ssa).gpr == spec_aex_gpr(old(vcpu).gview(), old(ssa).gpr, aex_excep.vec),
            final(ssa).misc == spec_aex_misc(old(ssa).misc, aex_excep),
            final(ssa).xsave.xstate_bv == xfrm,
            final(ssa).xsave@ =~= spec_save_components(old(ssa).xsave@, old(xstate)@, xfrm),
            final(xstate)@ =~= spec_restore_components(
                Seq::new(old(xstate)@.len(), |k: int| 0u64),
                0u64,
                old(xstate)@,
                xfrm,
            ),
            forall|k: int|
                0 <= k < old(xstate)@.len() && spec_mask_bit(xfrm, k) ==> final(xstate)@[k] == 0,
            r is Ok ==> final(vcpu).gview() == spec_aex_vcpu_transition(
                old(vcpu).gview(),
                aep,
                tcs_vaddr,
                *normal_world_state,
                old(ssa).gpr.ursp,
                old(ssa).gpr.urbp,
            ),
    {
        let regs = *vcpu.regs();
        ssa.gpr.rax = regs.rax;
        ssa.gpr.rcx = regs.rcx;
        ssa.gpr.rdx = regs.rdx;
        ssa.gpr.rbx = regs.rbx;
        ssa.gpr.rsp = vcpu.stack_pointer();
        ssa.gpr.rbp = regs.rbp;
        ssa.gpr.rsi = regs.rsi;
        ssa.gpr.rdi = regs.rdi;
        ssa.gpr.r8 = regs.r8;
        ssa.gpr.r9 = regs.r9;
        ssa.gpr.r10 = regs.r10;
        ssa.gpr.r11 = regs.r11;
        ssa.gpr.r12 = regs.r12;
        ssa.gpr.r13 = regs.r13;
        ssa.gpr.r14 = regs.r14;
        ssa.gpr.r15 = regs.r15;
        ssa.gpr.rflags = vcpu.rflags();
        ssa.gpr.rip = vcpu.instr_pointer();
        ssa.gpr.exit_info = SgxExitInfo::from_vector(aex_excep.vec);
        ssa.gpr.fs_base = vcpu.fs_base();
        ssa.gpr.gs_base = vcpu.gs_base();

        if let Some(misc_in) = aex_excep.misc {
            ssa.misc.exinfo.maddr = misc_in.exinfo.maddr;
            ssa.misc.exinfo.errcd = misc_in.exinfo.errcd;
        }

        // Save the live extended state governed by `xfrm` into the save-area
        // image, then reset exactly those components to their initial
        // values, so that no secure-world register contents leak into
        // whatever runs next. Both steps come before the snapshot store,
        // which hands the extended-state-enable register back to the normal
        // world.
        ssa.xsave.save(xfrm, xstate);
        let synthetic = XsaveRegion::synthetic();
        synthetic.restore(xfrm, xstate);
        proof {
            lemma_mask_bit_zero();
        }

        let ursp = ssa.gpr.ursp;
        let urbp = ssa.gpr.urbp;

        match vcpu.store_enclave_thread_state(aep, normal_world_state, false) {
            Err(e) => {
                return Err(e);
            },
            Ok(()) => {},
        }

        let regs = vcpu.regs_mut();
        *regs = GuestRegisters::default();  // scrub the secure-world context
        regs.rax = HYPERCALL_ENCLAVE_RESUME;
        regs.rbx = tcs_vaddr as u64;
        regs.rcx = aep;
        regs.rbp = urbp;
        // The stack pointer handed to the host is the user-level one saved
        // inside the state-save area, not the one active at fault time: a
        // secure-world fault may occur on an internal stack that must not be
        // exposed.
        vcpu.set_stack_pointer(ursp);
        Ok(())
    }

    /// Resumes secure-world execution after an asynchronous exit: the
    /// inverse of [`EnclaveThreadState::enclave_aex`]. Re-validates the
    /// extended-state mask and the self-consistency of the saved
    /// extended-state image, stores the secure-world snapshot rebuilt from
    /// the state-save area, restores the live extended state from the saved
    /// image, and reads the register block and stack pointer back. Any
    /// validation failure aborts the resume with every state untouched.
    pub fn enclave_resume<V: VcpuAccessEnclaveState>(
        vcpu: &mut V,
        xfrm: u64,
        hv_page_table_root: HostPhysAddr,
        page_table_root: HostPhysAddr,
        ssa: &StateSaveArea,
        xstate: &mut XsaveState,
    ) -> (r: HvResult)
        requires
            old(vcpu).gview().crs.len() > 4,
            ssa.wf(),
            old(xstate).wf(),
        ensures
            final(xstate).wf(),
            r is Err ==> final(xstate)@ == old(xstate)@,
            !spec_xfrm_valid(old(vcpu).gview(), xfrm) ==> r == HvResult::<()>::Err(
                HvError::InvalidParam,
            ) && final(vcpu).gview() == old(vcpu).gview() && final(xstate)@ == old(xstate)@,
            spec_xfrm_valid(old(vcpu).gview(), xfrm) && !spec_image_consistent(
                ssa.xsave.xstate_bv,
                xfrm,
            ) ==> r == HvResult::<()>::Err(HvError::InvalidParam) && final(vcpu).gview() == old(
                vcpu,
            ).gview() && final(xstate)@ == old(xstate)@,
            r is Ok ==> spec_xfrm_valid(old(vcpu).gview(), xfrm) && spec_image_consistent(
                ssa.xsave.xstate_bv,
                xfrm,
            ) && final(vcpu).gview() == spec_resume_transition(
                old(vcpu).gview(),
                xfrm,
                hv_page_table_root,
                page_table_root,
                ssa.gpr,
            ) && final(xstate)@ =~= spec_restore_components(
                ssa.xsave@,
                ssa.xsave.xstate_bv,
                old(xstate)@,
                xfrm,
            ),
    {
        match Self::validate_xfrm(vcpu, xfrm) {
            Err(e) => {
                return Err(e);
            },
            Ok(()) => {},
        }

        match ssa.xsave.validate_at_resume(xfrm) {
            Err(e) => {
                return Err(e);
            },
            Ok(()) => {},
        }

        // The secure world may not invoke host system calls directly.
        let efer = vcpu.efer() & !EFER_SYSTEM_CALL_EXTENSIONS;
        let sec_world_state = EnclaveThreadState {
            fs_base: ssa.gpr.fs_base,
            gs_base: ssa.gpr.gs_base,
            xcr0: xfrm,
            rflags: ssa.gpr.rflags,
            hv_page_table_root,
            page_table_root,
            efer,
            idtr_base: 0,
            idtr_limit: 0,
        };
        match vcpu.store_enclave_thread_state(ssa.gpr.rip, &sec_world_state, true) {
            Err(e) => {
                return Err(e);
            },
            Ok(()) => {},
        }

        // Restore the live extended state governed by `xfrm` from the saved
        // image, after the snapshot store handed the secure world its
        // extended-state-enable register back.
        ssa.xsave.restore(xfrm, xstate);

        let regs = vcpu.regs_mut();
        regs.rax = ssa.gpr.rax;
        regs.rcx = ssa.gpr.rcx;
        regs.rdx = ssa.gpr.rdx;
        regs.rbx = ssa.gpr.rbx;
        regs.rbp = ssa.gpr.rbp;
        regs.rsi = ssa.gpr.rsi;
        regs.rdi = ssa.gpr.rdi;
        regs.r8 = ssa.gpr.r8;
        regs.r9 = ssa.gpr.r9;
        regs.r10 = ssa.gpr.r10;
        regs.r11 = ssa.gpr.r11;
        regs.r12 = ssa.gpr.r12;
        regs.r13 = ssa.gpr.r13;
        regs.r14 = ssa.gpr.r14;
        regs.r15 = ssa.gpr.r15;
        vcpu.set_stack_pointer(ssa.gpr.rsp);

        Ok(())
    }
}

/// The running offset and size of the extended-state layout computation
/// after the component sub-leaves below `k` have been processed: starting
/// from the legacy region and header, each component named by `xfrm` whose
/// reported offset lies at or beyond the bytes used so far becomes the new
/// high-water mark. This mirrors the hardware's own state-layout algorithm.
pub open spec fn spec_xsave_offset_size(xfrm: u64, k: int) -> (int, int)
    decreases k,
{
    if k <= 2 {
        ((crate::xsave::XSAVE_LEGACY_REGION_SIZE + crate::xsave::XSAVE_HEADER_SIZE) as int, 0)
    } else {
        let prev = spec_xsave_offset_size(xfrm, k - 1);
        if spec_mask_bit(xfrm, k - 1) {
            let info = crate::cpuid::spec_xsave_state_info((k - 1) as usize);
            if info.0 >= prev.0 + prev.1 {
                (info.0 as int, info.1 as int)
            } else {
                prev
            }
        } else {
            prev
        }
    }
}

/// The byte size of the extended-state save area that the components named
/// by `xfrm` need.
pub open spec fn spec_xsave_size(xfrm: u64) -> int {
    let r = spec_xsave_offset_size(xfrm, 64);
    r.0 + r.1
}

/// The minimum byte size of one state-save-area frame under `xfrm`: the
/// extended-state image followed by the miscellaneous and general-purpose
/// records.
pub open spec fn spec_ssa_frame_size_needed(xfrm: u64) -> int {
    spec_xsave_size(xfrm) + crate::sgx::MISC_SGX_SIZE + crate::sgx::GPR_SGX_SIZE
}

/// Whether an enclave-creation descriptor passes validation: the enclave
/// size is a power of two of at least one page; the marshalling buffer is
/// page-aligned and not empty; the requested extended-state mask carries at
/// least the legacy template and nothing the hardware cannot enable; and
/// the declared save-frame size covers the computed minimum, which itself
/// stays under the build-time ceiling.
pub open spec fn spec_secs_valid(secs: crate::sgx::SgxSecs) -> bool {
    &&& secs.size >= crate::memory::PAGE_SIZE as u64
    &&& crate::memory::spec_is_power_of_two(secs.size)
    &&& secs.ms_buf_size != 0
    &&& crate::memory::spec_is_aligned(secs.ms_buf_size)
    &&& secs.attributes.xfrm & SECS_XFRM_TEMPLATE == SECS_XFRM_TEMPLATE
    &&& secs.attributes.xfrm & crate::cpuid::XCR0_SUPPORTED_BITS == secs.attributes.xfrm
    &&& spec_ssa_frame_size_needed(secs.attributes.xfrm) <= secs.ssa_frame_size
        * crate::memory::PAGE_SIZE
    &&& spec_ssa_frame_size_needed(secs.attributes.xfrm) <= crate::sgx::SSA_FRAME_SIZE
}

impl crate::sgx::SgxSecs {
    /// Validates this enclave-creation descriptor; see [`spec_secs_valid`].
    /// The minimum save-frame size is computed by iterating every component
    /// named by the requested mask and taking the furthest byte any of them
    /// reaches, exactly as the hardware lays the save area out.
    pub fn validate(&self) -> (r: HvResult)
        ensures
            r is Ok <==> spec_secs_valid(*self),
            r is Err ==> r == HvResult::<()>::Err(HvError::InvalidParam),
    {
        if self.size < crate::memory::PAGE_SIZE as u64 || !crate::memory::is_power_of_two(
            self.size,
        ) {
            return Err(HvError::InvalidParam);
        }

        if self.ms_buf_size == 0 || !crate::memory::is_aligned(self.ms_buf_size) {
            return Err(HvError::InvalidParam);
        }

        let xfrm = self.attributes.xfrm;
        if xfrm & SECS_XFRM_TEMPLATE != SECS_XFRM_TEMPLATE {
            return Err(HvError::InvalidParam);
        }

        let cpuid = crate::cpuid::CpuFeatures::new();
        // The mask must be a value the hardware could legally load into its
        // extended-state-enable register.
        let xcr0_supported_bits = cpuid.xcr0_supported_bits();
        if xfrm & xcr0_supported_bits != xfrm {
            return Err(HvError::InvalidParam);
        }

        // Iterate every component named by the mask to find the furthest
        // byte the save area reaches.
        let mut offset: usize = crate::xsave::XSAVE_LEGACY_REGION_SIZE
            + crate::xsave::XSAVE_HEADER_SIZE;
        let mut size: usize = 0;
        let mut sub_leaf: usize = 2;
        while sub_leaf <= 63
            invariant
                2 <= sub_leaf <= 64,
                (offset as int, size as int) == spec_xsave_offset_size(xfrm, sub_leaf as int),
                offset <= 2816,
                size <= 8192,
            decreases 64 - sub_leaf,
        {
            if (xfrm >> sub_leaf as u64) & 1 == 1 {
                let info = cpuid.xsave_state_info(sub_leaf);
                if info.0 >= offset + size {
                    offset = info.0;
                    size = info.1;
                }
            }
            sub_leaf = sub_leaf + 1;
        }
        let xsave_size = offset + size;

        let ssa_frame_size_needed = xsave_size + crate::sgx::MISC_SGX_SIZE
            + crate::sgx::GPR_SGX_SIZE;
        let ssa_frame_size_from_user = (self.ssa_frame_size as u64) * (
        crate::memory::PAGE_SIZE as u64);
        if ssa_frame_size_needed as u64 > ssa_frame_size_from_user {
            return Err(HvError::InvalidParam);
        }

        if ssa_frame_size_needed > crate::sgx::SSA_FRAME_SIZE {
            return Err(HvError::InvalidParam);
        }
        Ok(())
    }
}

/// The normal Linux kernel is unaware of the hypervisor, so for faults taken
/// in enclave mode the hypervisor prepares two views of one event: the
/// exception it injects into the normal world, and the record it writes into
/// the state-save area for the secure world. The two may differ — error-code
/// bits stripped or added — and the secure-world view is absent when the
/// fault was taken outside enclave mode.
#[derive(Clone, Copy, Debug, PartialEq, Eq)]
pub struct EnclaveExceptionInfo {
    /// What the normal world sees: filled into the exception-injection slot
    /// of the virtual-CPU control structure.
    pub linux_info: ExceptionInfo,
    /// What the secure world sees, filled into the state-save area; `None`
    /// when the fault was taken outside enclave mode, whose state-save area
    /// stays unmodified.
    pub aex_excep: Option<AexException>,
}

/// The two views of an invalid-opcode fault.
pub open spec fn spec_invalid_opcode(in_encl_mode: bool) -> EnclaveExceptionInfo {
    EnclaveExceptionInfo {
        linux_info: ExceptionInfo {
            exception_type: EXCEPTION_INVALID_OPCODE,
            error_code: None,
            cr2: None,
        },
        aex_excep: if in_encl_mode {
            Some(AexException { vec: EXCEPTION_INVALID_OPCODE, misc: None })
        } else {
            None
        },
    }
}

/// The two views of a general-protection fault with error code
/// `error_code`, taken in CPU state `cpu_state`.
pub open spec fn spec_general_protection(error_code: u32, cpu_state: CpuState) -> EnclaveExceptionInfo {
    EnclaveExceptionInfo {
        linux_info: ExceptionInfo {
            exception_type: EXCEPTION_GENERAL_PROTECTION_FAULT,
            error_code: Some(error_code),
            cr2: None,
        },
        aex_excep: if cpu_state is EnclaveRunning {
            Some(
                AexException {
                    vec: EXCEPTION_GENERAL_PROTECTION_FAULT,
                    misc: Some(MiscSgx { exinfo: ExinfoSgx { maddr: 0, errcd: error_code } }),
                },
            )
        } else {
            None
        },
    }
}

/// The two views of a page fault taken in enclave mode: the normal world
/// sees `errcd_for_linux` and the page-aligned fault address, the secure
/// world sees `errcd_for_misc` and the exact one.
pub open spec fn spec_page_fault_in_encl(
    errcd_for_linux: u32,
    errcd_for_misc: u32,
    fault_vaddr: usize,
) -> EnclaveExceptionInfo {
    EnclaveExceptionInfo {
        linux_info: ExceptionInfo {
            exception_type: EXCEPTION_PAGE_FAULT,
            error_code: Some(errcd_for_linux),
            cr2: Some(spec_align_down(fault_vaddr) as u64),
        },
        aex_excep: Some(
            AexException {
                vec: EXCEPTION_PAGE_FAULT,
                misc: Some(
                    MiscSgx {
                        exinfo: ExinfoSgx { maddr: fault_vaddr as u64, errcd: errcd_for_misc },
                    },
                ),
            },
        ),
    }
}

/// The single, normal-world view of a page fault taken outside enclave
/// mode.
pub open spec fn spec_page_fault_out_encl(error_code: u32, fault_vaddr: usize) -> EnclaveExceptionInfo {
    EnclaveExceptionInfo {
        linux_info: ExceptionInfo {
            exception_type: EXCEPTION_PAGE_FAULT,
            error_code: Some(error_code),
            cr2: Some(fault_vaddr as u64),
        },
        aex_excep: None,
    }
}

impl EnclaveExceptionInfo {
    /// Builds the two views of an invalid-opcode fault; the secure-world
    /// view exists iff the fault was taken in enclave mode.
    pub fn invalid_opcode(in_encl_mode: bool) -> (r: Self)
        ensures
            r == spec_invalid_opcode(in_encl_mode),
    {
        let aex_excep = if in_encl_mode {
            Some(AexException { vec: EXCEPTION_INVALID_OPCODE, misc: None })
        } else {
            None
        };
        EnclaveExceptionInfo {
            linux_info: ExceptionInfo {
                exception_type: EXCEPTION_INVALID_OPCODE,
                error_code: None,
                cr2: None,
            },
            aex_excep,
        }
    }

    /// Builds the two views of a general-protection fault; the secure-world
    /// view exists iff the CPU was running enclave code, and carries the
    /// error code in its miscellaneous record.
    pub fn general_protection(error_code: u32, cpu_state: &CpuState) -> (r: Self)
        ensures
            r == spec_general_protection(error_code, *cpu_state),
    {
        let aex_excep = if *cpu_state == CpuState::EnclaveRunning {
            Some(
                AexException {
                    vec: EXCEPTION_GENERAL_PROTECTION_FAULT,
                    misc: Some(MiscSgx::new(0, error_code)),
                },
            )
        } else {
            None
        };
        EnclaveExceptionInfo {
            linux_info: ExceptionInfo {
                exception_type: EXCEPTION_GENERAL_PROTECTION_FAULT,
                error_code: Some(error_code),
                cr2: None,
            },
            aex_excep,
        }
    }

    /// Builds the two views of a page fault taken in enclave mode. The
    /// caller chooses the error code each world sees; the normal world gets
    /// the page-aligned fault address, the secure world the exact one.
    pub fn page_fault_in_encl(errcd_for_linux: u32, errcd_for_misc: u32, fault_vaddr: usize) -> (r:
        Self)
        ensures
            r == spec_page_fault_in_encl(errcd_for_linux, errcd_for_misc, fault_vaddr),
    {
        let fault_addr_for_linux = align_down(fault_vaddr);
        let linux_info = ExceptionInfo::new(
            EXCEPTION_PAGE_FAULT,
            Some(errcd_for_linux),
            Some(fault_addr_for_linux as u64),
        );
        let aex_excep = Some(
            AexException {
                vec: EXCEPTION_PAGE_FAULT,
                misc: Some(MiscSgx::new(fault_vaddr, errcd_for_misc)),
            },
        );
        EnclaveExceptionInfo { linux_info, aex_excep }
    }

    /// Builds the single, normal-world view of a page fault taken outside
    /// enclave mode.
    pub fn page_fault_out_encl(error_code: u32, fault_vaddr: usize) -> (r: Self)
        ensures
            r == spec_page_fault_out_encl(error_code, fault_vaddr),
    {
        let linux_info = ExceptionInfo::new(
            EXCEPTION_PAGE_FAULT,
            Some(error_code),
            Some(fault_vaddr as u64),
        );
        EnclaveExceptionInfo { linux_info, aex_excep: None }
    }
}

/// The fix-up decision for a fault taken while an enclave owned the CPU:
/// what the normal world is told, what the secure world is told, or a
/// protocol-invariant violation.
///
/// - A vector other than a page fault passes through, with the secure-world
///   view always present; only a general-protection fault carries extra
///   detail, and one without an error code is a caller bug.
/// - A page fault must carry an address and an error code. At the null page
///   or inside the enclave's private range it is injected with matching
///   codes for both views; inside the shared-memory range the secure-world
///   code additionally carries the shared-memory-fetch bit, so that the
///   resume re-synchronizes the private mapping; outside every tracked
///   range the normal world sees only a protection-violation in user mode
///   at the page-aligned fault address and no secure-world view exists, so
///   the host kernel surfaces an ordinary access violation.
pub open spec fn spec_fixup_exception(
    vec: u8,
    error_code: Option<u32>,
    fault_gvaddr: Option<usize>,
    elrange: AddrRange,
    shmem: Seq<AddrRange>,
) -> HvResult<Option<EnclaveExceptionInfo>> {
    if vec != EXCEPTION_PAGE_FAULT {
        if vec == EXCEPTION_GENERAL_PROTECTION_FAULT {
            match error_code {
                Some(ec) => Ok(
                    Some(
                        EnclaveExceptionInfo {
                            linux_info: ExceptionInfo { exception_type: vec, error_code, cr2: None },
                            aex_excep: Some(
                                AexException {
                                    vec,
                                    misc: Some(
                                        MiscSgx { exinfo: ExinfoSgx { maddr: 0, errcd: ec } },
                                    ),
                                },
                            ),
                        },
                    ),
                ),
                None => Err(HvError::InvalidParam),
            }
        } else {
            Ok(
                Some(
                    EnclaveExceptionInfo {
                        linux_info: ExceptionInfo { exception_type: vec, error_code, cr2: None },
                        aex_excep: Some(AexException { vec, misc: None }),
                    },
                ),
            )
        }
    } else {
        match (error_code, fault_gvaddr) {
            (Some(ec), Some(addr)) => {
                if addr == 0 {
                    Ok(Some(spec_page_fault_in_encl(ec, ec, addr)))
                } else if elrange.spec_contains(addr) {
                    Ok(Some(spec_page_fault_in_encl(ec, ec, addr)))
                } else if spec_ranges_contain(shmem, addr) {
                    Ok(Some(spec_page_fault_in_encl(ec, ec | PF_SHARED_MEM_FETCH, addr)))
                } else {
                    Ok(
                        Some(
                            spec_page_fault_out_encl(
                                PF_PROTECTION_VIOLATION | PF_USER_MODE,
                                spec_align_down(addr),
                            ),
                        ),
                    )
                }
            },
            _ => Err(HvError::InvalidParam),
        }
    }
}

/// An enclave: its private address range, and the shared-memory ranges it
/// co-maps with the normal world. The shared ranges sit behind a
/// reader/writer lock because several cores may classify faults on them
/// concurrently; the fault path takes the reader side. The layout is fixed
/// at creation here; remapping takes the writer side and belongs to the
/// teardown path outside this core.
pub struct Enclave {
    elrange: AddrRange,
    shmem: RwLock<Vec<AddrRange>, spec_fn(Vec<AddrRange>) -> bool>,
    shmem_model: Ghost<Seq<AddrRange>>,
}

impl Enclave {
    /// The private address range of the enclave.
    pub closed spec fn spec_elrange(&self) -> AddrRange {
        self.elrange
    }

    /// The shared-memory ranges of the enclave.
    pub closed spec fn spec_shmem(&self) -> Seq<AddrRange> {
        self.shmem_model@
    }

    /// The lock always holds exactly the creation-time shared ranges: this
    /// core never takes the writer side.
    pub closed spec fn wf(&self) -> bool {
        forall|v: Vec<AddrRange>| self.shmem.inv(v) <==> v@ == self.shmem_model@
    }

    /// Builds an enclave from its private range and its shared-memory
    /// ranges.
    pub fn new(elrange: AddrRange, shmem: Vec<AddrRange>) -> (r: Self)
        ensures
            r.wf(),
            r.spec_elrange() == elrange,
            r.spec_shmem() == shmem@,
    {
        let ghost model = shmem@;
        let lock = RwLock::new(shmem, Ghost(|v: Vec<AddrRange>| v@ == model));
        Enclave { elrange, shmem: lock, shmem_model: Ghost(model) }
    }

    /// The private address range of the enclave.
    pub fn elrange(&self) -> (r: AddrRange)
        ensures
            r == self.spec_elrange(),
    {
        self.elrange
    }

    /// Decides, for a fault taken while this enclave owned the CPU, what is
    /// injected where; see [`spec_fixup_exception`]. Reads the shared-range
    /// layout under the reader lock.
    pub fn fixup_exception(
        &self,
        vec: u8,
        error_code: Option<u32>,
        fault_gvaddr: Option<usize>,
    ) -> (r: HvResult<Option<EnclaveExceptionInfo>>)
        requires
            self.wf(),
        ensures
            r == spec_fixup_exception(
                vec,
                error_code,
                fault_gvaddr,
                self.spec_elrange(),
                self.spec_shmem(),
            ),
    {
        if vec != EXCEPTION_PAGE_FAULT {
            let misc = if vec == EXCEPTION_GENERAL_PROTECTION_FAULT {
                let misc_errcd = match error_code {
                    Some(misc_errcd) => misc_errcd,
                    None => {
                        // A general-protection fault always carries an error
                        // code; its absence is a caller bug.
                        return Err(HvError::InvalidParam);
                    },
                };
                Some(MiscSgx::new(0, misc_errcd))
            } else {
                None
            };
            return Ok(
                Some(
                    EnclaveExceptionInfo {
                        linux_info: ExceptionInfo::new(vec, error_code, None),
                        aex_excep: Some(AexException { vec, misc }),
                    },
                ),
            );
        }

        // A page fault always carries a fault address and an error code;
        // their absence is a protocol-invariant violation, not a normal
        // error.
        let fault_gvaddr = match fault_gvaddr {
            Some(gvaddr) => gvaddr,
            None => {
                return Err(HvError::InvalidParam);
            },
        };
        let error_code = match error_code {
            Some(error_code) => error_code,
            None => {
                return Err(HvError::InvalidParam);
            },
        };
        if fault_gvaddr == 0 {
            // A null-pointer dereference: inject the page fault directly,
            // with matching codes for both views.
            Ok(Some(EnclaveExceptionInfo::page_fault_in_encl(error_code, error_code, fault_gvaddr)))
        } else if self.elrange.contains(fault_gvaddr) {
            // A fault inside the private range: inject on the normal path
            // with matching codes.
            Ok(Some(EnclaveExceptionInfo::page_fault_in_encl(error_code, error_code, fault_gvaddr)))
        } else {
            let read_handle = self.shmem.acquire_read();
            let in_shmem = ranges_contain(read_handle.borrow(), fault_gvaddr);
            read_handle.release_read();
            if in_shmem {
                // A fault in shared memory: the secure-world view carries
                // the shared-memory-fetch bit, so the resume re-synchronizes
                // the private mapping for this address from the shared page
                // table; the normal-world view is unchanged.
                Ok(
                    Some(
                        EnclaveExceptionInfo::page_fault_in_encl(
                            error_code,
                            error_code | PF_SHARED_MEM_FETCH,
                            fault_gvaddr,
                        ),
                    ),
                )
            } else {
                // An illegal access outside every tracked range: the normal
                // world sees only protection-violation and user-mode bits
                // at the page-aligned fault address, and delivers its
                // ordinary termination signal; no secure-world view exists.
                Ok(
                    Some(
                        EnclaveExceptionInfo::page_fault_out_encl(
                            PF_PROTECTION_VIOLATION | PF_USER_MODE,
                            align_down(fault_gvaddr),
                        ),
                    ),
                )
            }
        }
    }
}

} // verus!

verus! {

/// Law: for any valid extended-state mask, entering the secure world and
/// immediately leaving it with the snapshot captured before the entry
/// restores bit-identical control-register state.
pub proof fn lemma_enter_exit_round_trip(
    v: VcpuStateView,
    entry_ip: u64,
    fs_base: u64,
    gs_base: u64,
    xfrm: u64,
    cssa: u32,
    hv_root: HostPhysAddr,
    pt_root: HostPhysAddr,
    exit_ip: u64,
    aep: u64,
)
    requires
        spec_xfrm_valid(v, xfrm),
    ensures
        spec_capture_state(
            spec_exit_transition(
                spec_enter_transition(
                    v,
                    entry_ip,
                    fs_base,
                    gs_base,
                    xfrm,
                    cssa,
                    hv_root,
                    pt_root,
                ),
                exit_ip,
                aep,
                spec_capture_state(v),
            ),
        ) == spec_capture_state(v),
{
}

/// Law: an asynchronous exit followed by a resume with the same state-save
/// area reproduces the general-purpose register block, the stack pointer,
/// the flags and the instruction pointer captured at exit time, with no
/// intervening mutation.
pub proof fn lemma_aex_resume_round_trip(
    v: VcpuStateView,
    old_gpr: GprSgx,
    vec: u8,
    aep: u64,
    tcs_vaddr: GuestVirtAddr,
    nw: EnclaveThreadState,
    xfrm: u64,
    hv_root: HostPhysAddr,
    pt_root: HostPhysAddr,
)
    ensures
        ({
            let gpr = spec_aex_gpr(v, old_gpr, vec);
            let after_aex = spec_aex_vcpu_transition(
                v,
                aep,
                tcs_vaddr,
                nw,
                old_gpr.ursp,
                old_gpr.urbp,
            );
            let after_resume = spec_resume_transition(after_aex, xfrm, hv_root, pt_root, gpr);
            &&& after_resume.regs == v.regs
            &&& after_resume.rsp == v.rsp
            &&& after_resume.rflags == v.rflags
            &&& after_resume.rip == v.rip
        }),
{
}

/// Law: a page fault at the null page is injected with matching error codes
/// for both the normal-world and the secure-world view.
pub proof fn lemma_fixup_null_page(ec: u32, elrange: AddrRange, shmem: Seq<AddrRange>)
    ensures
        spec_fixup_exception(EXCEPTION_PAGE_FAULT, Some(ec), Some(0usize), elrange, shmem) == (
        HvResult::<Option<EnclaveExceptionInfo>>::Ok(Some(spec_page_fault_in_encl(ec, ec, 0)))),
        spec_page_fault_in_encl(ec, ec, 0).linux_info.error_code == Some(ec),
        spec_page_fault_in_encl(ec, ec, 0).aex_excep == Some(
            AexException {
                vec: EXCEPTION_PAGE_FAULT,
                misc: Some(MiscSgx { exinfo: ExinfoSgx { maddr: 0, errcd: ec } }),
            },
        ),
{
}

/// Law: a page fault inside the shared-memory range keeps the normal-world
/// view unchanged, while the secure-world view carries the same error code
/// with the shared-memory-fetch bit added.
pub proof fn lemma_fixup_shared_memory(
    ec: u32,
    addr: usize,
    elrange: AddrRange,
    shmem: Seq<AddrRange>,
)
    requires
        addr != 0,
        !elrange.spec_contains(addr),
        spec_ranges_contain(shmem, addr),
    ensures
        spec_fixup_exception(EXCEPTION_PAGE_FAULT, Some(ec), Some(addr), elrange, shmem) == (
        HvResult::<Option<EnclaveExceptionInfo>>::Ok(
            Some(spec_page_fault_in_encl(ec, ec | PF_SHARED_MEM_FETCH, addr)),
        )),
        spec_page_fault_in_encl(ec, ec | PF_SHARED_MEM_FETCH, addr).linux_info.error_code == Some(
            ec,
        ),
        spec_page_fault_in_encl(
            ec,
            ec | PF_SHARED_MEM_FETCH,
            addr,
        ).aex_excep matches Some(a) && a.misc matches Some(m) && m.exinfo.errcd == (ec
            | PF_SHARED_MEM_FETCH),
{
}

/// Law: a page fault outside every tracked range produces no secure-world
/// view, and the normal world sees exactly the protection-violation and
/// user-mode bits at the page-aligned fault address, whatever the raw error
/// code was.
pub proof fn lemma_fixup_outside_ranges(
    ec: u32,
    addr: usize,
    elrange: AddrRange,
    shmem: Seq<AddrRange>,
)
    requires
        addr != 0,
        !elrange.spec_contains(addr),
        !spec_ranges_contain(shmem, addr),
    ensures
        spec_fixup_exception(EXCEPTION_PAGE_FAULT, Some(ec), Some(addr), elrange, shmem) == (
        HvResult::<Option<EnclaveExceptionInfo>>::Ok(
            Some(
                spec_page_fault_out_encl(
                    PF_PROTECTION_VIOLATION | PF_USER_MODE,
                    spec_align_down(addr),
                ),
            ),
        )),
        spec_page_fault_out_encl(
            PF_PROTECTION_VIOLATION | PF_USER_MODE,
            spec_align_down(addr),
        ).aex_excep is None,
        spec_page_fault_out_encl(
            PF_PROTECTION_VIOLATION | PF_USER_MODE,
            spec_align_down(addr),
        ).linux_info.error_code == Some(PF_PROTECTION_VIOLATION | PF_USER_MODE),
        spec_page_fault_out_encl(
            PF_PROTECTION_VIOLATION | PF_USER_MODE,
            spec_align_down(addr),
        ).linux_info.cr2 == Some(spec_align_down(addr) as u64),
{
}

} // verus!
