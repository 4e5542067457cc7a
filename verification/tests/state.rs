//! Tests of the supporting state types: CPU features, registers, address
//! helpers, segments, page-table entries and the extended-state model.

use hyperenclave::check_hypervisor_feature;
use hyperenclave::context::{GuestRegisters, LinuxContext};
use hyperenclave::cpuid::CpuFeatures;
use hyperenclave::error::HvError;
use hyperenclave::exception::ExceptionInfo;
use hyperenclave::memory::{align_down, is_aligned, is_power_of_two, ranges_contain, AddrRange};
use hyperenclave::page_table::{AArch64PageTableFlags, PTEntry};
use hyperenclave::segmentation::{MemoryRegion, Segment, SegmentAccessRights};
use hyperenclave::sgx::{GprSgx, SgxExitInfo, StateSaveArea};
use hyperenclave::vmm::{NestedPageTable, NPTEntry, VcpuAccessGuestState, AArch64Vcpu, Vcpu};
use hyperenclave::xsave::{XsaveRegion, XsaveState};

#[test]
fn baseline_features_are_reported() {
    let features = CpuFeatures::new();
    assert!(features.has_virtualization());
    assert!(features.has_floating_point());
    assert!(features.has_advsimd());
    assert!(!features.has_sve());
    assert!(features.has_aes());
    assert!(features.has_sha1());
    assert!(features.has_sha256());
    assert!(features.has_atomic());
}

#[test]
fn feature_word_combines_registers_and_drops_undefined_bits() {
    // Union of the two words, truncated to the defined flag set.
    let features = CpuFeatures::from_registers(0xdead_0000_0000_0104, 0x23);
    assert!(features.has_virtualization());
    assert!(features.has_floating_point());
    assert!(features.has_advsimd());
    assert!(features.has_sve());
    assert!(features.has_sha1());
    assert!(!features.has_aes());
    assert!(!features.has_sha256());
    assert!(!features.has_atomic());
}

#[test]
fn hypervisor_feature_check_passes_on_baseline() {
    assert!(check_hypervisor_feature().is_ok());
}

#[test]
fn extended_state_layout_matches_the_descriptor() {
    let features = CpuFeatures::new();
    assert_eq!(features.xcr0_supported_bits(), 0x600ff);
    assert_eq!(features.xsave_state_info(2), (576, 256));
    assert_eq!(features.xsave_state_info(7), (1664, 1024));
    assert_eq!(features.xsave_state_info(18), (2816, 8192));
    assert_eq!(features.xsave_state_info(8), (0, 0));
}

#[test]
fn error_descriptions() {
    assert_eq!(HvError::InvalidParam.as_str(), "invalid argument");
    assert_eq!(HvError::NoDevice.as_str(), "no such device");
}

#[test]
fn address_helpers() {
    assert_eq!(align_down(0x12fff), 0x12000);
    assert_eq!(align_down(0x12000), 0x12000);
    assert!(is_aligned(0x5000));
    assert!(!is_aligned(0x5001));
    assert!(is_power_of_two(1));
    assert!(is_power_of_two(4096));
    assert!(!is_power_of_two(0));
    assert!(!is_power_of_two(4097));
}

#[test]
fn address_ranges() {
    let r = AddrRange::new(0x1000, 0x2000);
    assert!(r.contains(0x1000));
    assert!(r.contains(0x1fff));
    assert!(!r.contains(0x2000));
    assert!(!r.contains(0xfff));
    let set = vec![AddrRange::new(0x1000, 0x2000), AddrRange::new(0x8000, 0x9000)];
    assert!(ranges_contain(&set, 0x8123));
    assert!(!ranges_contain(&set, 0x7fff));
}

#[test]
fn zeroed_register_blocks() {
    let regs = GuestRegisters::default();
    assert_eq!(regs.rax, 0);
    assert_eq!(regs.r15, 0);
    let linux = LinuxContext::new();
    assert_eq!(linux.sp, 0);
    assert_eq!(linux.vbar_el1, 0);
    assert!(linux.regs.iter().all(|r| *r == 0));
    let gpr = GprSgx::new();
    assert_eq!(gpr.exit_info.bits, 0);
    let ssa = StateSaveArea::new();
    assert_eq!(ssa.xsave.xstate_bv, 0);
}

#[test]
fn exception_info_builder() {
    let info = ExceptionInfo::new(14, Some(0x6), Some(0x1234));
    assert_eq!(info.exception_type, 14);
    assert_eq!(info.error_code, Some(0x6));
    assert_eq!(info.cr2, Some(0x1234));
}

#[test]
fn exit_info_encodes_vector_and_type() {
    // A hardware exception carries exit type three; the breakpoint carries
    // the software exit type six. The valid bit is always set.
    assert_eq!(SgxExitInfo::from_vector(14).bits, 14 | (3 << 8) | 0x8000_0000);
    assert_eq!(SgxExitInfo::from_vector(3).bits, 3 | (6 << 8) | 0x8000_0000);
}

#[test]
fn segment_rights_come_from_descriptor_bits() {
    // Bits [40, 56) of the descriptor hold the rights; only defined bits
    // survive.
    let desc: u64 = 0x9b << 40;
    assert_eq!(SegmentAccessRights::from_descriptor(desc).bits, 0x9b);
    let noisy: u64 = (0xff60u64 << 40) | 0xffff;
    assert_eq!(SegmentAccessRights::from_descriptor(noisy).bits, 0);
    let segment = Segment::from_descriptor(0x1000, 0xffff, 0xffff_ffff);
    assert_eq!(segment.access_rights.bits, 0x9f);
    assert_eq!(Segment::invalid().limit, 0);
}

#[test]
fn memory_regions() {
    let r = MemoryRegion::new(0x4000, 0x1000, 0x3);
    assert_eq!(r.start, 0x4000);
    assert_eq!(r.size, 0x1000);
    assert_eq!(r.access_rights, 0x3);
    assert_eq!(MemoryRegion::invalid().size, 0);
}

#[test]
fn page_table_entry_bits() {
    let mut e = PTEntry::new();
    assert!(e.is_unused());
    let r = e.set_flags(
        hyperenclave::memory::MEM_FLAG_PRESENT | hyperenclave::memory::MEM_FLAG_WRITE
            | hyperenclave::memory::MEM_FLAG_USER,
        false,
    );
    assert!(r.is_ok());
    e.set_addr(0x7000);
    assert!(e.is_present());
    assert!(!e.is_leaf());
    assert_eq!(e.addr(), 0x7000);
    // Present, writable, user, and no-execute means no execute flag.
    assert_eq!(
        e.flags(),
        hyperenclave::memory::MEM_FLAG_PRESENT | hyperenclave::memory::MEM_FLAG_WRITE
            | hyperenclave::memory::MEM_FLAG_USER,
    );
    assert!(e.set_notpresent().is_ok());
    assert!(!e.is_present());
    assert!(e.set_present().is_ok());
    assert!(e.is_present());
    e.clear();
    assert!(e.is_unused());
}

#[test]
fn translation_flag_conversions() {
    let f = AArch64PageTableFlags::from_mem_flags(
        hyperenclave::memory::MEM_FLAG_WRITE | hyperenclave::memory::MEM_FLAG_ACCESSED,
    );
    // Valid, read-write, access flag, and both no-execute bits.
    assert_eq!(
        f.bits,
        AArch64PageTableFlags::VALID | AArch64PageTableFlags::AP_RW | AArch64PageTableFlags::AF
            | AArch64PageTableFlags::UXN | AArch64PageTableFlags::PXN,
    );
    let back = f.to_mem_flags();
    assert_eq!(
        back,
        hyperenclave::memory::MEM_FLAG_WRITE | hyperenclave::memory::MEM_FLAG_ACCESSED,
    );
}

#[test]
fn nested_page_table_maps_and_unmaps() {
    let mut npt = NestedPageTable::new(16);
    npt.map(0x3123, 0xabc000, 0x7);
    assert!(!npt.entries[3].is_unused());
    assert_eq!(npt.entries[3].entry, 0xabc000 | 0x7);
    npt.unmap(0x3fff);
    assert!(npt.entries[3].is_unused());
    // An address beyond the table is ignored.
    npt.map(0x10000, 0xdef000, 0x7);
    assert!(npt.entries.iter().all(|e| e.is_unused()));
}

#[test]
fn nested_page_table_entry_bits() {
    let mut e = NPTEntry::new();
    assert!(e.is_unused());
    e.set_addr(0xffff_ffff_ffff_ffff, 0xfff);
    assert_eq!(e.entry, 0x0000_ffff_ffff_ffff);
    e.clear();
    assert!(e.is_unused());
}

#[test]
fn software_vcpu_accessors() {
    let mut vcpu = Vcpu::new();
    vcpu.rip = 0x100;
    vcpu.rsp = 0x200;
    vcpu.guest_regs.rbp = 0x300;
    assert_eq!(vcpu.instr_pointer(), 0x100);
    assert_eq!(vcpu.stack_pointer(), 0x200);
    assert_eq!(vcpu.frame_pointer(), 0x300);
    vcpu.set_stack_pointer(0x400);
    assert_eq!(vcpu.rsp, 0x400);
    vcpu.set_return_val(0x55);
    assert_eq!(vcpu.guest_regs.rax, 0x55);
    vcpu.set_cr(4, 0x600);
    assert_eq!(vcpu.cr(4), 0x600);
    vcpu.set_xcr0(0x7);
    assert_eq!(vcpu.xcr0(), 0x7);
    vcpu.regs_mut().rdx = 0x77;
    assert_eq!(vcpu.regs().rdx, 0x77);
}

#[test]
fn register_backend_accessors() {
    let mut vcpu = AArch64Vcpu { registers: GuestRegisters::default(), sp: 0x10, pc: 0x20 };
    assert_eq!(vcpu.stack_pointer(), 0x10);
    assert_eq!(vcpu.instr_pointer(), 0x20);
    assert_eq!(vcpu.rflags(), 0);
    assert_eq!(vcpu.efer(), 0);
    vcpu.set_return_val(9);
    assert_eq!(vcpu.registers.rax, 9);
    vcpu.set_stack_pointer(0x30);
    assert_eq!(vcpu.sp, 0x30);
}

#[test]
fn xsave_save_and_restore_follow_the_mask() {
    let mut region = XsaveRegion::new();
    let mut live = XsaveState::new();
    live.comps[0] = 1;
    live.comps[1] = 2;
    live.comps[2] = 3;
    region.save(0x3, &live);
    assert_eq!(region.xstate_bv, 0x3);
    assert_eq!(region.comps[0], 1);
    assert_eq!(region.comps[1], 2);
    assert_eq!(region.comps[2], 0);

    let mut fresh = XsaveState::new();
    fresh.comps[2] = 9;
    // Restoring under a wider mask loads saved components and resets the
    // component the image does not hold.
    region.restore(0x7, &mut fresh);
    assert_eq!(fresh.comps[0], 1);
    assert_eq!(fresh.comps[1], 2);
    assert_eq!(fresh.comps[2], 0);
    assert!(region.validate_at_resume(0x3).is_ok());
    assert!(region.validate_at_resume(0x1).is_err());

    let synthetic = XsaveRegion::synthetic();
    synthetic.restore(0x3, &mut fresh);
    assert_eq!(fresh.comps[0], 0);
    assert_eq!(fresh.comps[1], 0);
}

#[test]
fn xsave_component_accessors() {
    let mut live = XsaveState::new();
    live.set_component(5, 77);
    assert_eq!(live.component(5), 77);
    assert_eq!(live.component(6), 0);
}
