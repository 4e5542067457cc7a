//! Address types, alignment helpers and address ranges.

use vstd::prelude::*;

verus! {

/// Size of one page, the unit of all alignment checks in this crate.
pub const PAGE_SIZE: usize = 4096;

/// A physical address of the host.
pub type HostPhysAddr = usize;

/// A physical address as seen by the guest.
pub type GuestPhysAddr = usize;

/// A virtual address as seen by the guest.
pub type GuestVirtAddr = usize;

/// `addr` rounded down to a page boundary.
pub open spec fn spec_align_down(addr: usize) -> usize {
    addr & !((PAGE_SIZE - 1) as usize)
}

/// Rounds `addr` down to a page boundary.
pub fn align_down(addr: usize) -> (r: usize)
    ensures
        r == spec_align_down(addr),
{
    addr & !(PAGE_SIZE - 1)
}

/// Whether `addr` lies on a page boundary.
pub open spec fn spec_is_aligned(addr: usize) -> bool {
    addr & ((PAGE_SIZE - 1) as usize) == 0
}

/// Returns whether `addr` lies on a page boundary.
pub fn is_aligned(addr: usize) -> (r: bool)
    ensures
        r == spec_is_aligned(addr),
{
    addr & (PAGE_SIZE - 1) == 0
}

/// Whether `v` is a power of two.
pub open spec fn spec_is_power_of_two(v: u64) -> bool {
    v != 0 && v & ((v - 1) as u64) == 0
}

/// Returns whether `v` is a power of two.
pub fn is_power_of_two(v: u64) -> (r: bool)
    ensures
        r == spec_is_power_of_two(v),
{
    v != 0 && v & (v - 1) == 0
}

// Architecture-neutral memory flags, one bit per property.
pub const MEM_FLAG_PRESENT: u64 = 0x1;
pub const MEM_FLAG_WRITE: u64 = 0x2;
pub const MEM_FLAG_EXECUTE: u64 = 0x4;
pub const MEM_FLAG_USER: u64 = 0x8;
pub const MEM_FLAG_ACCESSED: u64 = 0x10;
pub const MEM_FLAG_NO_PRESENT: u64 = 0x20;

/// An error of a page-table operation.
#[derive(Clone, Copy, Debug, PartialEq, Eq, Structural)]
pub enum PagingError {
    NoMemory,
    NotMapped,
    AlreadyMapped,
}

/// Result type of the page-table operations.
pub type PagingResult<T = ()> = Result<T, PagingError>;

/// A half-open range `[start, end)` of guest virtual addresses.
#[derive(Clone, Copy, Debug, PartialEq, Eq, Structural)]
pub struct AddrRange {
    pub start: usize,
    pub end: usize,
}

impl AddrRange {
    /// Whether `addr` lies inside the range.
    pub open spec fn spec_contains(&self, addr: usize) -> bool {
        self.start <= addr < self.end
    }

    /// Builds the range `[start, end)`.
    pub fn new(start: usize, end: usize) -> (r: Self)
        ensures
            r.start == start,
            r.end == end,
    {
        AddrRange { start, end }
    }

    /// Returns whether `addr` lies inside the range.
    pub fn contains(&self, addr: usize) -> (r: bool)
        ensures
            r == self.spec_contains(addr),
    {
        self.start <= addr && addr < self.end
    }
}

/// Whether any range of `ranges` contains `addr`.
pub open spec fn spec_ranges_contain(ranges: Seq<AddrRange>, addr: usize) -> bool {
    exists|i: int| 0 <= i < ranges.len() && ranges[i].spec_contains(addr)
}

/// Returns whether any range of `ranges` contains `addr`.
pub fn ranges_contain(ranges: &Vec<AddrRange>, addr: usize) -> (r: bool)
    ensures
        r == spec_ranges_contain(ranges@, addr),
{
    let mut i: usize = 0;
    while i < ranges.len()
        invariant
            i <= ranges.len(),
            forall|j: int| 0 <= j < i ==> !ranges@[j].spec_contains(addr),
        decreases ranges.len() - i,
    {
        if ranges[i].contains(addr) {
            assert(ranges@[i as int].spec_contains(addr));
            return true;
        }
        i = i + 1;
    }
    false
}

} // verus!
