//! The architecture-neutral virtual-CPU state abstraction.
//!
//! Every register and control-register access of the enclave engine goes
//! through the capability trait [`VcpuAccessGuestState`]; each hardware
//! backend implements it once, and everything above is written against the
//! trait alone. The ghost [`VcpuStateView`] is the mathematical model of the
//! machine-visible state of one virtual CPU; every trait method is specified
//! against it.

use vstd::prelude::*;

verus! {

use crate::context::GuestRegisters;

/// The model of the machine-visible state of one virtual CPU.
///
/// `crs` models the small indexed family of control and translation
/// registers a backend exposes; its length is the number of valid indices.
/// `secure` records which world the next entry returns to.
pub ghost struct VcpuStateView {
    pub regs: GuestRegisters,
    pub rip: u64,
    pub rsp: u64,
    pub rflags: u64,
    pub fs_base: u64,
    pub gs_base: u64,
    pub efer: u64,
    pub xcr0: u64,
    pub crs: Seq<u64>,
    pub hv_pt_root: usize,
    pub pt_root: usize,
    pub idtr_base: u64,
    pub idtr_limit: u32,
    pub secure: bool,
    pub xsave_capable: bool,
}

/// Architecture-neutral access to the guest-visible state of one virtual
/// CPU.
///
/// Writes take effect on the next entry into the corresponding world;
/// backends that write hardware registers directly must still satisfy these
/// contracts for the state the next entry observes.
pub trait VcpuAccessGuestState: Sized {
    /// The model of the state this backend currently holds.
    spec fn gview(&self) -> VcpuStateView;

    /// The general-purpose register block.
    fn regs(&self) -> (r: &GuestRegisters)
        ensures
            *r == self.gview().regs;

    /// The general-purpose register block, for mutation.
    fn regs_mut(&mut self) -> (r: &mut GuestRegisters)
        ensures
            *r == old(self).gview().regs,
            final(self).gview() == (VcpuStateView { regs: *final(r), ..old(self).gview() });

    /// The instruction pointer the next entry uses.
    fn instr_pointer(&self) -> (r: u64)
        ensures
            r == self.gview().rip;

    /// The stack pointer the next entry uses.
    fn stack_pointer(&self) -> (r: u64)
        ensures
            r == self.gview().rsp;

    /// The frame pointer of the guest.
    fn frame_pointer(&self) -> (r: u64)
        ensures
            r == self.gview().regs.rbp;

    /// Sets the stack pointer the next entry uses.
    fn set_stack_pointer(&mut self, sp: u64)
        ensures
            final(self).gview() == (VcpuStateView { rsp: sp, ..old(self).gview() });

    /// Writes the return-value slot of the guest calling convention.
    fn set_return_val(&mut self, ret_val: usize)
        ensures
            final(self).gview() == (VcpuStateView {
                regs: GuestRegisters { rax: ret_val as u64, ..old(self).gview().regs },
                ..old(self).gview()
            });

    /// The flags register.
    fn rflags(&self) -> (r: u64)
        ensures
            r == self.gview().rflags;

    /// The first segment-base register.
    fn fs_base(&self) -> (r: u64)
        ensures
            r == self.gview().fs_base;

    /// The second segment-base register.
    fn gs_base(&self) -> (r: u64)
        ensures
            r == self.gview().gs_base;

    /// The extended-feature-enable register.
    fn efer(&self) -> (r: u64)
        ensures
            r == self.gview().efer;

    /// Reads one register of the indexed control-register family. Accessing
    /// an index the backend does not expose is a programming error, which
    /// the precondition rules out.
    fn cr(&self, cr_idx: usize) -> (r: u64)
        requires
            cr_idx < self.gview().crs.len(),
        ensures
            r == self.gview().crs[cr_idx as int];

    /// Writes one register of the indexed control-register family.
    fn set_cr(&mut self, cr_idx: usize, val: u64)
        requires
            cr_idx < old(self).gview().crs.len(),
        ensures
            final(self).gview() == (VcpuStateView {
                crs: old(self).gview().crs.update(cr_idx as int, val),
                ..old(self).gview()
            });

    /// The extended-state-enable register.
    fn xcr0(&self) -> (r: u64)
        ensures
            r == self.gview().xcr0;

    /// Writes the extended-state-enable register, on a backend that has one.
    fn set_xcr0(&mut self, val: u64)
        requires
            old(self).gview().xsave_capable,
        ensures
            final(self).gview() == (VcpuStateView { xcr0: val, ..old(self).gview() });
}

/// A software-state backend: a virtual CPU whose control structure is held
/// as plain values. It is the reference implementation of the capability
/// traits; hardware backends replace the storage, not the contracts.
#[derive(Clone, Copy, Debug, PartialEq, Eq, Structural)]
pub struct Vcpu {
    pub guest_regs: GuestRegisters,
    pub rip: u64,
    pub rsp: u64,
    pub rflags: u64,
    pub fs_base: u64,
    pub gs_base: u64,
    pub efer: u64,
    pub xcr0: u64,
    pub cr0: u64,
    pub cr1: u64,
    pub cr2: u64,
    pub cr3: u64,
    pub cr4: u64,
    pub hv_pt_root: usize,
    pub pt_root: usize,
    pub idtr_base: u64,
    pub idtr_limit: u32,
    pub secure: bool,
}

impl Vcpu {
    /// Builds a virtual CPU with every register zero, running the normal
    /// world.
    pub fn new() -> (r: Self)
        ensures
            r.gview() == (VcpuStateView {
                regs: GuestRegisters::spec_zeroed(),
                rip: 0,
                rsp: 0,
                rflags: 0,
                fs_base: 0,
                gs_base: 0,
                efer: 0,
                xcr0: 0,
                crs: seq![0u64, 0u64, 0u64, 0u64, 0u64],
                hv_pt_root: 0,
                pt_root: 0,
                idtr_base: 0,
                idtr_limit: 0,
                secure: false,
                xsave_capable: true,
            }),
    {
        Vcpu {
            guest_regs: GuestRegisters::default(),
            rip: 0,
            rsp: 0,
            rflags: 0,
            fs_base: 0,
            gs_base: 0,
            efer: 0,
            xcr0: 0,
            cr0: 0,
            cr1: 0,
            cr2: 0,
            cr3: 0,
            cr4: 0,
            hv_pt_root: 0,
            pt_root: 0,
            idtr_base: 0,
            idtr_limit: 0,
            secure: false,
        }
    }
}

impl VcpuAccessGuestState for Vcpu {
    open spec fn gview(&self) -> VcpuStateView {
        VcpuStateView {
            regs: self.guest_regs,
            rip: self.rip,
            rsp: self.rsp,
            rflags: self.rflags,
            fs_base: self.fs_base,
            gs_base: self.gs_base,
            efer: self.efer,
            xcr0: self.xcr0,
            crs: seq![self.cr0, self.cr1, self.cr2, self.cr3, self.cr4],
            hv_pt_root: self.hv_pt_root,
            pt_root: self.pt_root,
            idtr_base: self.idtr_base,
            idtr_limit: self.idtr_limit,
            secure: self.secure,
            xsave_capable: true,
        }
    }

    fn regs(&self) -> &GuestRegisters {
        &self.guest_regs
    }

    fn regs_mut(&mut self) -> &mut GuestRegisters {
        &mut self.guest_regs
    }

    fn instr_pointer(&self) -> u64 {
        self.rip
    }

    fn stack_pointer(&self) -> u64 {
        self.rsp
    }

    fn frame_pointer(&self) -> u64 {
        self.guest_regs.rbp
    }

    fn set_stack_pointer(&mut self, sp: u64) {
        self.rsp = sp;
    }

    fn set_return_val(&mut self, ret_val: usize) {
        self.guest_regs.rax = ret_val as u64;
    }

    fn rflags(&self) -> u64 {
        self.rflags
    }

    fn fs_base(&self) -> u64 {
        self.fs_base
    }

    fn gs_base(&self) -> u64 {
        self.gs_base
    }

    fn efer(&self) -> u64 {
        self.efer
    }

    fn cr(&self, cr_idx: usize) -> u64 {
        if cr_idx == 0 {
            self.cr0
        } else if cr_idx == 1 {
            self.cr1
        } else if cr_idx == 2 {
            self.cr2
        } else if cr_idx == 3 {
            self.cr3
        } else {
            self.cr4
        }
    }

    fn set_cr(&mut self, cr_idx: usize, val: u64) {
        if cr_idx == 0 {
            self.cr0 = val;
        } else if cr_idx == 1 {
            self.cr1 = val;
        } else if cr_idx == 2 {
            self.cr2 = val;
        } else if cr_idx == 3 {
            self.cr3 = val;
        } else {
            self.cr4 = val;
        }
        proof {
            assert(self.gview().crs =~= old(self).gview().crs.update(cr_idx as int, val));
        }
    }

    fn xcr0(&self) -> u64 {
        self.xcr0
    }

    fn set_xcr0(&mut self, val: u64) {
        self.xcr0 = val;
    }
}

/// Mask of the physical-address bits of a nested-page-table entry.
pub const NPT_PHYS_ADDR_MASK: u64 = 0x0000_ffff_ffff_f000;

/// One entry of the nested (stage-2) page table: a physical address and
/// flag bits packed into one word.
#[derive(Clone, Copy, Debug, PartialEq, Eq, Structural)]
pub struct NPTEntry {
    pub entry: u64,
}

impl NPTEntry {
    /// Builds an empty entry.
    pub fn new() -> (r: Self)
        ensures
            r.entry == 0,
    {
        NPTEntry { entry: 0 }
    }

    /// Whether the entry is completely unused.
    pub fn is_unused(&self) -> (r: bool)
        ensures
            r == (self.entry == 0),
    {
        self.entry == 0
    }

    /// Packs a physical address and flag bits into the entry.
    pub fn set_addr(&mut self, paddr: u64, flags: u64)
        ensures
            final(self).entry == (paddr & NPT_PHYS_ADDR_MASK) | (flags & !NPT_PHYS_ADDR_MASK),
    {
        self.entry = (paddr & NPT_PHYS_ADDR_MASK) | (flags & !NPT_PHYS_ADDR_MASK);
    }

    /// Clears the entry.
    pub fn clear(&mut self)
        ensures
            final(self).entry == 0,
    {
        self.entry = 0;
    }
}

/// A flat model of the nested (stage-2) page table: one entry per guest
/// page, indexed by page number.
#[derive(Clone, Debug)]
pub struct NestedPageTable {
    pub entries: Vec<NPTEntry>,
}

impl NestedPageTable {
    /// Builds a table of `size` empty entries.
    pub fn new(size: usize) -> (r: Self)
        ensures
            r.entries@.len() == size,
            forall|i: int| 0 <= i < size ==> r.entries@[i].entry == 0,
    {
        let mut entries: Vec<NPTEntry> = Vec::new();
        let mut i: usize = 0;
        while i < size
            invariant
                entries.len() == i,
                i <= size,
                forall|j: int| 0 <= j < i ==> entries@[j].entry == 0,
            decreases size - i,
        {
            entries.push(NPTEntry::new());
            i = i + 1;
        }
        NestedPageTable { entries }
    }

    /// Maps the page containing `vaddr` to `paddr` with `flags`; out of the
    /// table's range, the table is left unchanged.
    pub fn map(&mut self, vaddr: usize, paddr: u64, flags: u64)
        ensures
            final(self).entries@.len() == old(self).entries@.len(),
            ({
                let index = vaddr as int / (crate::memory::PAGE_SIZE as int);
                if index < old(self).entries@.len() {
                    final(self).entries@ =~= old(self).entries@.update(
                        index,
                        NPTEntry {
                            entry: (paddr & NPT_PHYS_ADDR_MASK) | (flags & !NPT_PHYS_ADDR_MASK),
                        },
                    )
                } else {
                    final(self).entries@ =~= old(self).entries@
                }
            }),
    {
        let index = vaddr / crate::memory::PAGE_SIZE;
        if index < self.entries.len() {
            let mut e = self.entries[index];
            e.set_addr(paddr, flags);
            self.entries.set(index, e);
        }
    }

    /// Unmaps the page containing `vaddr`; out of the table's range, the
    /// table is left unchanged.
    pub fn unmap(&mut self, vaddr: usize)
        ensures
            final(self).entries@.len() == old(self).entries@.len(),
            ({
                let index = vaddr as int / (crate::memory::PAGE_SIZE as int);
                if index < old(self).entries@.len() {
                    final(self).entries@ =~= old(self).entries@.update(index, NPTEntry { entry: 0 })
                } else {
                    final(self).entries@ =~= old(self).entries@
                }
            }),
    {
        let index = vaddr / crate::memory::PAGE_SIZE;
        if index < self.entries.len() {
            self.entries.set(index, NPTEntry { entry: 0 });
        }
    }
}

/// The register-block backend of the second architecture: only the
/// general-purpose block, the stack pointer and the program counter exist;
/// the flags, segment-base, extended-feature and control registers of the
/// trait read as zero, and no indexed control register and no
/// extended-state-enable register is exposed.
#[derive(Clone, Copy, Debug)]
pub struct AArch64Vcpu {
    pub registers: GuestRegisters,
    pub sp: u64,
    pub pc: u64,
}

impl VcpuAccessGuestState for AArch64Vcpu {
    open spec fn gview(&self) -> VcpuStateView {
        VcpuStateView {
            regs: self.registers,
            rip: self.pc,
            rsp: self.sp,
            rflags: 0,
            fs_base: 0,
            gs_base: 0,
            efer: 0,
            xcr0: 0,
            crs: Seq::empty(),
            hv_pt_root: 0,
            pt_root: 0,
            idtr_base: 0,
            idtr_limit: 0,
            secure: false,
            xsave_capable: false,
        }
    }

    fn regs(&self) -> &GuestRegisters {
        &self.registers
    }

    fn regs_mut(&mut self) -> &mut GuestRegisters {
        &mut self.registers
    }

    fn instr_pointer(&self) -> u64 {
        self.pc
    }

    fn stack_pointer(&self) -> u64 {
        self.sp
    }

    fn frame_pointer(&self) -> u64 {
        self.registers.rbp
    }

    fn set_stack_pointer(&mut self, sp: u64) {
        self.sp = sp;
    }

    fn set_return_val(&mut self, ret_val: usize) {
        self.registers.rax = ret_val as u64;
    }

    fn rflags(&self) -> u64 {
        0
    }

    fn fs_base(&self) -> u64 {
        0
    }

    fn gs_base(&self) -> u64 {
        0
    }

    fn efer(&self) -> u64 {
        0
    }

    fn cr(&self, _cr_idx: usize) -> u64 {
        0
    }

    fn set_cr(&mut self, _cr_idx: usize, _val: u64) {
    }

    fn xcr0(&self) -> u64 {
        0
    }

    fn set_xcr0(&mut self, _val: u64) {
    }
}

} // verus!
