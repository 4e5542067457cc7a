//! Page-table entries of the guest-side translation tables: raw bit layout
//! on one side, architecture-neutral memory flags on the other.

use vstd::prelude::*;

verus! {

use crate::memory::{
    PagingResult, MEM_FLAG_ACCESSED, MEM_FLAG_EXECUTE, MEM_FLAG_NO_PRESENT, MEM_FLAG_PRESENT,
    MEM_FLAG_USER, MEM_FLAG_WRITE,
};

/// Mask of the physical-address bits of a page-table entry.
pub const PT_PHYS_ADDR_MASK: u64 = 0x0000_ffff_ffff_f000;

// Raw bits of a page-table entry.
pub const PTE_PRESENT: u64 = 0x1;
pub const PTE_WRITE: u64 = 0x2;
pub const PTE_USER: u64 = 0x4;
pub const PTE_ACCESSED: u64 = 0x20;
pub const PTE_NO_EXECUTE: u64 = 0x40;
pub const PTE_HUGE: u64 = 0x80;

/// The raw bits of the translation-table flag encoding.
#[derive(Clone, Copy, Debug, PartialEq, Eq, Structural)]
pub struct AArch64PageTableFlags {
    pub bits: u64,
}

impl AArch64PageTableFlags {
    pub const VALID: u64 = 0x1;
    pub const TABLE: u64 = 0x2;
    pub const PAGE: u64 = 0x4;
    pub const AP_RO: u64 = 0x40;
    pub const AP_RW: u64 = 0x80;
    pub const AF: u64 = 0x400;
    pub const PXN: u64 = 0x20_0000_0000_0000;
    pub const UXN: u64 = 0x40_0000_0000_0000;

    /// The raw flag bits that encode the given memory flags: valid unless
    /// marked not-present, writable or read-only access, no-execute bits
    /// when execution is denied, and the access flag.
    pub open spec fn spec_from_mem_flags(f: u64) -> u64 {
        let b0: u64 = if f & MEM_FLAG_NO_PRESENT == 0 {
            Self::VALID
        } else {
            0
        };
        let b1: u64 = if f & MEM_FLAG_WRITE != 0 {
            Self::AP_RW
        } else {
            Self::AP_RO
        };
        let b2: u64 = if f & MEM_FLAG_EXECUTE == 0 {
            Self::UXN | Self::PXN
        } else {
            0
        };
        let b3: u64 = if f & MEM_FLAG_ACCESSED != 0 {
            Self::AF
        } else {
            0
        };
        b0 | b1 | b2 | b3
    }

    /// Encodes architecture-neutral memory flags into raw flag bits.
    pub fn from_mem_flags(f: u64) -> (r: Self)
        ensures
            r.bits == Self::spec_from_mem_flags(f),
    {
        let b0: u64 = if f & MEM_FLAG_NO_PRESENT == 0 {
            Self::VALID
        } else {
            0
        };
        let b1: u64 = if f & MEM_FLAG_WRITE != 0 {
            Self::AP_RW
        } else {
            Self::AP_RO
        };
        let b2: u64 = if f & MEM_FLAG_EXECUTE == 0 {
            Self::UXN | Self::PXN
        } else {
            0
        };
        let b3: u64 = if f & MEM_FLAG_ACCESSED != 0 {
            Self::AF
        } else {
            0
        };
        AArch64PageTableFlags { bits: b0 | b1 | b2 | b3 }
    }

    /// The memory flags that the raw flag bits encode.
    pub open spec fn spec_to_mem_flags(bits: u64) -> u64 {
        let m0: u64 = if bits & Self::VALID == 0 {
            MEM_FLAG_NO_PRESENT
        } else {
            0
        };
        let m1: u64 = if bits & Self::AP_RW != 0 {
            MEM_FLAG_WRITE
        } else {
            0
        };
        let m2: u64 = if bits & (Self::UXN | Self::PXN) == 0 {
            MEM_FLAG_EXECUTE
        } else {
            0
        };
        let m3: u64 = if bits & Self::AF != 0 {
            MEM_FLAG_ACCESSED
        } else {
            0
        };
        m0 | m1 | m2 | m3
    }

    /// Decodes the raw flag bits back into architecture-neutral memory
    /// flags.
    pub fn to_mem_flags(&self) -> (r: u64)
        ensures
            r == Self::spec_to_mem_flags(self.bits),
    {
        let m0: u64 = if self.bits & Self::VALID == 0 {
            MEM_FLAG_NO_PRESENT
        } else {
            0
        };
        let m1: u64 = if self.bits & Self::AP_RW != 0 {
            MEM_FLAG_WRITE
        } else {
            0
        };
        let m2: u64 = if self.bits & (Self::UXN | Self::PXN) == 0 {
            MEM_FLAG_EXECUTE
        } else {
            0
        };
        let m3: u64 = if self.bits & Self::AF != 0 {
            MEM_FLAG_ACCESSED
        } else {
            0
        };
        m0 | m1 | m2 | m3
    }
}

/// One page-table entry: a physical address and flag bits packed into one
/// word.
#[derive(Clone, Copy, Debug, PartialEq, Eq, Structural)]
pub struct PTEntry {
    pub raw: u64,
}

impl PTEntry {
    /// Builds an empty entry.
    pub fn new() -> (r: Self)
        ensures
            r.raw == 0,
    {
        PTEntry { raw: 0 }
    }

    /// The physical address the entry points at.
    pub fn addr(&self) -> (r: u64)
        ensures
            r == self.raw & PT_PHYS_ADDR_MASK,
    {
        self.raw & PT_PHYS_ADDR_MASK
    }

    /// The memory flags the entry encodes.
    pub fn flags(&self) -> (r: u64)
        ensures
            r == ({
                let m0: u64 = if self.raw & PTE_PRESENT != 0 {
                    MEM_FLAG_PRESENT
                } else {
                    0
                };
                let m1: u64 = if self.raw & PTE_WRITE != 0 {
                    MEM_FLAG_WRITE
                } else {
                    0
                };
                let m2: u64 = if self.raw & PTE_NO_EXECUTE == 0 {
                    MEM_FLAG_EXECUTE
                } else {
                    0
                };
                let m3: u64 = if self.raw & PTE_USER != 0 {
                    MEM_FLAG_USER
                } else {
                    0
                };
                m0 | m1 | m2 | m3
            }),
    {
        let m0: u64 = if self.raw & PTE_PRESENT != 0 {
            MEM_FLAG_PRESENT
        } else {
            0
        };
        let m1: u64 = if self.raw & PTE_WRITE != 0 {
            MEM_FLAG_WRITE
        } else {
            0
        };
        let m2: u64 = if self.raw & PTE_NO_EXECUTE == 0 {
            MEM_FLAG_EXECUTE
        } else {
            0
        };
        let m3: u64 = if self.raw & PTE_USER != 0 {
            MEM_FLAG_USER
        } else {
            0
        };
        m0 | m1 | m2 | m3
    }

    /// Whether the entry is completely unused.
    pub fn is_unused(&self) -> (r: bool)
        ensures
            r == (self.raw == 0),
    {
        self.raw == 0
    }

    /// Whether the entry is marked present.
    pub fn is_present(&self) -> (r: bool)
        ensures
            r == (self.raw & PTE_PRESENT != 0),
    {
        self.raw & PTE_PRESENT != 0
    }

    /// Whether the entry maps a page directly instead of pointing at a
    /// further table.
    pub fn is_leaf(&self) -> (r: bool)
        ensures
            r == (self.raw & PTE_HUGE != 0),
    {
        self.raw & PTE_HUGE != 0
    }

    /// Whether the entry was recently accessed.
    pub fn is_young(&self) -> (r: bool)
        ensures
            r == (self.raw & PTE_ACCESSED != 0),
    {
        self.raw & PTE_ACCESSED != 0
    }

    /// Clears the recently-accessed mark.
    pub fn set_old(&mut self)
        ensures
            final(self).raw == old(self).raw & !PTE_ACCESSED,
    {
        self.raw = self.raw & !PTE_ACCESSED;
    }

    /// Replaces the physical address, keeping the flag bits.
    pub fn set_addr(&mut self, paddr: u64)
        ensures
            final(self).raw == (old(self).raw & !PT_PHYS_ADDR_MASK) | (paddr & PT_PHYS_ADDR_MASK),
    {
        self.raw = (self.raw & !PT_PHYS_ADDR_MASK) | (paddr & PT_PHYS_ADDR_MASK);
    }

    /// Replaces the flag bits from memory flags, keeping the address.
    pub fn set_flags(&mut self, flags: u64, is_huge: bool) -> (r: PagingResult)
        ensures
            r is Ok,
            final(self).raw == (old(self).raw & PT_PHYS_ADDR_MASK) | ({
                let b0: u64 = if flags & MEM_FLAG_PRESENT != 0 {
                    PTE_PRESENT
                } else {
                    0
                };
                let b1: u64 = if flags & MEM_FLAG_WRITE != 0 {
                    PTE_WRITE
                } else {
                    0
                };
                let b2: u64 = if flags & MEM_FLAG_EXECUTE == 0 {
                    PTE_NO_EXECUTE
                } else {
                    0
                };
                let b3: u64 = if flags & MEM_FLAG_USER != 0 {
                    PTE_USER
                } else {
                    0
                };
                let b4: u64 = if is_huge {
                    PTE_HUGE
                } else {
                    0
                };
                b0 | b1 | b2 | b3 | b4
            }),
    {
        let b0: u64 = if flags & MEM_FLAG_PRESENT != 0 {
            PTE_PRESENT
        } else {
            0
        };
        let b1: u64 = if flags & MEM_FLAG_WRITE != 0 {
            PTE_WRITE
        } else {
            0
        };
        let b2: u64 = if flags & MEM_FLAG_EXECUTE == 0 {
            PTE_NO_EXECUTE
        } else {
            0
        };
        let b3: u64 = if flags & MEM_FLAG_USER != 0 {
            PTE_USER
        } else {
            0
        };
        let b4: u64 = if is_huge {
            PTE_HUGE
        } else {
            0
        };
        self.raw = (self.raw & PT_PHYS_ADDR_MASK) | (b0 | b1 | b2 | b3 | b4);
        Ok(())
    }

    /// Points the entry at a further table, writable and user-accessible.
    pub fn set_table(&mut self, paddr: u64, is_present: bool) -> (r: PagingResult)
        ensures
            r is Ok,
            final(self).raw == (paddr & PT_PHYS_ADDR_MASK) | PTE_WRITE | PTE_USER | (
            if is_present {
                PTE_PRESENT
            } else {
                0
            }),
    {
        let present: u64 = if is_present {
            PTE_PRESENT
        } else {
            0
        };
        self.raw = (paddr & PT_PHYS_ADDR_MASK) | PTE_WRITE | PTE_USER | present;
        Ok(())
    }

    /// Marks the entry present.
    pub fn set_present(&mut self) -> (r: PagingResult)
        ensures
            r is Ok,
            final(self).raw == old(self).raw | PTE_PRESENT,
    {
        self.raw = self.raw | PTE_PRESENT;
        Ok(())
    }

    /// Marks the entry not present.
    pub fn set_notpresent(&mut self) -> (r: PagingResult)
        ensures
            r is Ok,
            final(self).raw == old(self).raw & !PTE_PRESENT,
    {
        self.raw = self.raw & !PTE_PRESENT;
        Ok(())
    }

    /// Clears the entry completely.
    pub fn clear(&mut self)
        ensures
            final(self).raw == 0,
    {
        self.raw = 0;
    }
}

/// The paging-instruction hooks of the translation hardware: activating a
/// root table and flushing translations are hardware operations performed
/// outside this core.
#[derive(Clone, Copy, Debug)]
pub struct AArch64PagingInstr;

} // verus!
