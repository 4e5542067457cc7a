//! Tests of the enclave thread-state transition engine: enter, exit,
//! asynchronous exit and resume on the software-state virtual CPU.

use hyperenclave::context::GuestRegisters;
use hyperenclave::enclave::{
    AexException, EnclaveThreadState, VcpuAccessEnclaveState, CR4_OSFXSR, CR4_OSXSAVE,
    EFER_SYSTEM_CALL_EXTENSIONS, RFLAGS_INTERRUPT_FLAG,
};
use hyperenclave::error::HvError;
use hyperenclave::hypercall::HYPERCALL_ENCLAVE_RESUME;
use hyperenclave::sgx::{MiscSgx, StateSaveArea};
use hyperenclave::vmm::Vcpu;
use hyperenclave::xsave::XsaveState;

fn test_vcpu() -> Vcpu {
    let mut vcpu = Vcpu::new();
    vcpu.cr4 = CR4_OSFXSR | CR4_OSXSAVE;
    vcpu.xcr0 = 0x7;
    vcpu.rflags = 0x246;
    vcpu.efer = 0xd01;
    vcpu.rip = 0x1111;
    vcpu.rsp = 0x8000;
    vcpu
}

#[test]
fn enter_stores_secure_world_state() {
    let mut vcpu = test_vcpu();
    let r = EnclaveThreadState::enclave_enter(
        &mut vcpu, 0x2000, 0x10, 0x20, 0x3, 2, 0x3000, 0x4000,
    );
    assert!(r.is_ok());
    assert_eq!(vcpu.rip, 0x2000);
    assert_eq!(vcpu.rflags, 0x246 & !RFLAGS_INTERRUPT_FLAG);
    assert_eq!(vcpu.efer, 0xd01 & !EFER_SYSTEM_CALL_EXTENSIONS);
    assert_eq!(vcpu.xcr0, 0x3);
    assert_eq!(vcpu.fs_base, 0x10);
    assert_eq!(vcpu.gs_base, 0x20);
    assert_eq!(vcpu.hv_pt_root, 0x3000);
    assert_eq!(vcpu.pt_root, 0x4000);
    assert_eq!(vcpu.idtr_base, 0);
    assert_eq!(vcpu.idtr_limit, 0);
    assert!(vcpu.secure);
    // The argument registers carry the nesting index and the resumption
    // instruction pointer.
    assert_eq!(vcpu.guest_regs.rax, 2);
    assert_eq!(vcpu.guest_regs.rcx, 0x1111);
}

#[test]
fn enter_rejects_mask_outside_enabled_set() {
    let mut vcpu = test_vcpu();
    vcpu.xcr0 = 0x3;
    let before = vcpu;
    let r = EnclaveThreadState::enclave_enter(
        &mut vcpu, 0x2000, 0x10, 0x20, 0x7, 0, 0x3000, 0x4000,
    );
    assert_eq!(r, Err(HvError::InvalidParam));
    // A rejected mask leaves the virtual CPU untouched.
    assert_eq!(vcpu, before);
}

#[test]
fn enter_rejects_when_legacy_save_disabled() {
    let mut vcpu = test_vcpu();
    vcpu.cr4 = 0;
    let r = EnclaveThreadState::enclave_enter(
        &mut vcpu, 0x2000, 0x10, 0x20, 0x3, 0, 0x3000, 0x4000,
    );
    assert_eq!(r, Err(HvError::InvalidParam));
}

#[test]
fn enter_without_osxsave_takes_only_the_template() {
    let mut vcpu = test_vcpu();
    vcpu.cr4 = CR4_OSFXSR;
    let r = EnclaveThreadState::enclave_enter(
        &mut vcpu, 0x2000, 0x10, 0x20, 0x7, 0, 0x3000, 0x4000,
    );
    assert_eq!(r, Err(HvError::InvalidParam));

    let mut vcpu = test_vcpu();
    vcpu.cr4 = CR4_OSFXSR;
    let r = EnclaveThreadState::enclave_enter(
        &mut vcpu, 0x2000, 0x10, 0x20, 0x3, 0, 0x3000, 0x4000,
    );
    assert!(r.is_ok());
}

#[test]
fn enter_then_exit_restores_control_state() {
    let mut vcpu = test_vcpu();
    vcpu.hv_pt_root = 0x5000;
    vcpu.pt_root = 0x6000;
    vcpu.fs_base = 0xaa;
    vcpu.gs_base = 0xbb;
    vcpu.idtr_base = 0xcc00;
    vcpu.idtr_limit = 0xfff;

    let snapshot = vcpu.load_enclave_thread_state().unwrap();
    let r = EnclaveThreadState::enclave_enter(
        &mut vcpu, 0x2000, 0x10, 0x20, 0x3, 1, 0x3000, 0x4000,
    );
    assert!(r.is_ok());
    let r = EnclaveThreadState::enclave_exit(&mut vcpu, 0x1111, 0x9999, &snapshot);
    assert!(r.is_ok());

    // Bit-identical control-register state.
    assert_eq!(vcpu.rflags, 0x246);
    assert_eq!(vcpu.fs_base, 0xaa);
    assert_eq!(vcpu.gs_base, 0xbb);
    assert_eq!(vcpu.efer, 0xd01);
    assert_eq!(vcpu.xcr0, 0x7);
    assert_eq!(vcpu.hv_pt_root, 0x5000);
    assert_eq!(vcpu.pt_root, 0x6000);
    assert_eq!(vcpu.idtr_base, 0xcc00);
    assert_eq!(vcpu.idtr_limit, 0xfff);
    assert_eq!(vcpu.rip, 0x1111);
    assert!(!vcpu.secure);
    // The asynchronous-exit pointer rides in its register.
    assert_eq!(vcpu.guest_regs.rcx, 0x9999);
}

fn secure_vcpu() -> Vcpu {
    let mut vcpu = test_vcpu();
    vcpu.secure = true;
    vcpu.guest_regs = GuestRegisters {
        rax: 1,
        rcx: 2,
        rdx: 3,
        rbx: 4,
        rbp: 5,
        rsi: 6,
        rdi: 7,
        r8: 8,
        r9: 9,
        r10: 10,
        r11: 11,
        r12: 12,
        r13: 13,
        r14: 14,
        r15: 15,
    };
    vcpu.rip = 0x7700;
    vcpu.rsp = 0x7800;
    vcpu.rflags = 0x297;
    vcpu.fs_base = 0x11;
    vcpu.gs_base = 0x22;
    vcpu
}

fn normal_world() -> EnclaveThreadState {
    EnclaveThreadState {
        rflags: 0x202,
        fs_base: 0x33,
        gs_base: 0x44,
        xcr0: 0x7,
        hv_page_table_root: 0x5000,
        page_table_root: 0x6000,
        efer: 0xd01,
        idtr_base: 0x9000,
        idtr_limit: 0xfff,
    }
}

#[test]
fn aex_saves_state_and_hands_off() {
    let mut vcpu = secure_vcpu();
    let mut ssa = StateSaveArea::new();
    ssa.gpr.ursp = 0xdead0;
    ssa.gpr.urbp = 0xdead8;
    let mut xstate = XsaveState::new();
    xstate.comps[0] = 101;
    xstate.comps[1] = 102;
    xstate.comps[2] = 103;
    xstate.comps[5] = 105;

    let excep = AexException { vec: 14, misc: Some(MiscSgx::new(0x1234, 0x6)) };
    let nw = normal_world();
    let r = EnclaveThreadState::enclave_aex(
        &mut vcpu, excep, 0xaabb, 0x7, 0x77000, &mut ssa, &nw, &mut xstate,
    );
    assert!(r.is_ok());

    // The live registers were captured into the save area.
    assert_eq!(ssa.gpr.rax, 1);
    assert_eq!(ssa.gpr.rcx, 2);
    assert_eq!(ssa.gpr.r15, 15);
    assert_eq!(ssa.gpr.rsp, 0x7800);
    assert_eq!(ssa.gpr.rbp, 5);
    assert_eq!(ssa.gpr.rflags, 0x297);
    assert_eq!(ssa.gpr.rip, 0x7700);
    assert_eq!(ssa.gpr.fs_base, 0x11);
    assert_eq!(ssa.gpr.gs_base, 0x22);
    // Page-fault vector, hardware exit type, valid bit.
    assert_eq!(ssa.gpr.exit_info.bits, 14 | (3 << 8) | 0x8000_0000);
    // The user-level stack pointers were preserved, not overwritten.
    assert_eq!(ssa.gpr.ursp, 0xdead0);
    assert_eq!(ssa.gpr.urbp, 0xdead8);
    // The fault detail reached the miscellaneous record.
    assert_eq!(ssa.misc.exinfo.maddr, 0x1234);
    assert_eq!(ssa.misc.exinfo.errcd, 0x6);

    // The extended state named by the mask was saved and reset to its
    // initial value; other components kept their contents.
    assert_eq!(ssa.xsave.xstate_bv, 0x7);
    assert_eq!(ssa.xsave.comps[0], 101);
    assert_eq!(ssa.xsave.comps[1], 102);
    assert_eq!(ssa.xsave.comps[2], 103);
    assert_eq!(xstate.comps[0], 0);
    assert_eq!(xstate.comps[1], 0);
    assert_eq!(xstate.comps[2], 0);
    assert_eq!(xstate.comps[5], 105);

    // The normal world was restored, directed at the handler.
    assert_eq!(vcpu.rip, 0xaabb);
    assert_eq!(vcpu.rflags, 0x202);
    assert!(!vcpu.secure);

    // The register block was scrubbed down to the hand-off triple.
    assert_eq!(vcpu.guest_regs.rax, HYPERCALL_ENCLAVE_RESUME);
    assert_eq!(vcpu.guest_regs.rbx, 0x77000);
    assert_eq!(vcpu.guest_regs.rcx, 0xaabb);
    assert_eq!(vcpu.guest_regs.rbp, 0xdead8);
    assert_eq!(vcpu.guest_regs.rdx, 0);
    assert_eq!(vcpu.guest_regs.rsi, 0);
    assert_eq!(vcpu.guest_regs.r15, 0);
    assert_eq!(vcpu.rsp, 0xdead0);
}

#[test]
fn aex_without_misc_detail_leaves_misc_record() {
    let mut vcpu = secure_vcpu();
    let mut ssa = StateSaveArea::new();
    ssa.misc.exinfo.maddr = 0x5555;
    ssa.misc.exinfo.errcd = 0x66;
    let mut xstate = XsaveState::new();
    let excep = AexException { vec: 6, misc: None };
    let nw = normal_world();
    let r = EnclaveThreadState::enclave_aex(
        &mut vcpu, excep, 0xaabb, 0x3, 0x77000, &mut ssa, &nw, &mut xstate,
    );
    assert!(r.is_ok());
    assert_eq!(ssa.misc.exinfo.maddr, 0x5555);
    assert_eq!(ssa.misc.exinfo.errcd, 0x66);
    // Invalid-opcode vector with the hardware exit type.
    assert_eq!(ssa.gpr.exit_info.bits, 6 | (3 << 8) | 0x8000_0000);
}

#[test]
fn aex_then_resume_reproduces_captured_state() {
    let mut vcpu = secure_vcpu();
    let captured = vcpu;
    let mut ssa = StateSaveArea::new();
    ssa.gpr.ursp = 0xdead0;
    ssa.gpr.urbp = 0xdead8;
    let mut xstate = XsaveState::new();
    xstate.comps[2] = 42;

    let excep = AexException { vec: 14, misc: Some(MiscSgx::new(0x1234, 0x6)) };
    let nw = normal_world();
    let r = EnclaveThreadState::enclave_aex(
        &mut vcpu, excep, 0xaabb, 0x7, 0x77000, &mut ssa, &nw, &mut xstate,
    );
    assert!(r.is_ok());

    let r = EnclaveThreadState::enclave_resume(
        &mut vcpu, 0x7, 0x3000, 0x4000, &ssa, &mut xstate,
    );
    assert!(r.is_ok());

    // The register block, stack pointer, flags and instruction pointer are
    // back as they were at exit time.
    assert_eq!(vcpu.guest_regs, captured.guest_regs);
    assert_eq!(vcpu.rsp, captured.rsp);
    assert_eq!(vcpu.rflags, captured.rflags);
    assert_eq!(vcpu.rip, captured.rip);
    assert!(vcpu.secure);
    // The saved extended state came back too.
    assert_eq!(xstate.comps[2], 42);
}

#[test]
fn resume_rejects_mask_outside_enabled_set() {
    let mut vcpu = test_vcpu();
    vcpu.xcr0 = 0x3;
    let ssa = StateSaveArea::new();
    let mut xstate = XsaveState::new();
    let before = vcpu;
    let r = EnclaveThreadState::enclave_resume(
        &mut vcpu, 0x7, 0x3000, 0x4000, &ssa, &mut xstate,
    );
    assert_eq!(r, Err(HvError::InvalidParam));
    assert_eq!(vcpu, before);
}

#[test]
fn resume_rejects_inconsistent_image() {
    let mut vcpu = test_vcpu();
    let mut ssa = StateSaveArea::new();
    // The image claims a component the mask does not name.
    ssa.xsave.xstate_bv = 0x8;
    let mut xstate = XsaveState::new();
    let before = vcpu;
    let r = EnclaveThreadState::enclave_resume(
        &mut vcpu, 0x3, 0x3000, 0x4000, &ssa, &mut xstate,
    );
    assert_eq!(r, Err(HvError::InvalidParam));
    assert_eq!(vcpu, before);
}

#[test]
fn resume_restores_registers_from_save_area() {
    let mut vcpu = test_vcpu();
    let mut ssa = StateSaveArea::new();
    ssa.gpr.rax = 0x11;
    ssa.gpr.rbx = 0x22;
    ssa.gpr.rsp = 0x9990;
    ssa.gpr.rip = 0x4321;
    ssa.gpr.rflags = 0x202;
    ssa.gpr.fs_base = 0x77;
    ssa.gpr.gs_base = 0x88;
    ssa.xsave.xstate_bv = 0x3;
    ssa.xsave.comps[0] = 7;
    ssa.xsave.comps[1] = 8;
    let mut xstate = XsaveState::new();
    xstate.comps[0] = 99;
    xstate.comps[2] = 55;

    let r = EnclaveThreadState::enclave_resume(
        &mut vcpu, 0x3, 0x3000, 0x4000, &ssa, &mut xstate,
    );
    assert!(r.is_ok());
    assert_eq!(vcpu.guest_regs.rax, 0x11);
    assert_eq!(vcpu.guest_regs.rbx, 0x22);
    assert_eq!(vcpu.rsp, 0x9990);
    assert_eq!(vcpu.rip, 0x4321);
    assert_eq!(vcpu.rflags, 0x202);
    assert_eq!(vcpu.fs_base, 0x77);
    assert_eq!(vcpu.gs_base, 0x88);
    assert_eq!(vcpu.xcr0, 0x3);
    assert_eq!(vcpu.efer, 0xd01 & !EFER_SYSTEM_CALL_EXTENSIONS);
    assert!(vcpu.secure);
    // Components named by the mask and present in the image are loaded;
    // ones not named keep their live contents.
    assert_eq!(xstate.comps[0], 7);
    assert_eq!(xstate.comps[1], 8);
    assert_eq!(xstate.comps[2], 55);
}
