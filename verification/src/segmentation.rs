//! Segment descriptors and memory regions of the guest-visible address
//! space.

use vstd::prelude::*;

verus! {

use bit_field::BitField;

// Access-right bits of a segment, as stored in the guest register state.
pub const SEG_ACCESSED: u32 = 0x1;
pub const SEG_EXECUTABLE: u32 = 0x2;
pub const SEG_WRITABLE: u32 = 0x4;
pub const SEG_CACHEABLE: u32 = 0x8;
pub const SEG_BUFFERABLE: u32 = 0x10;
pub const SEG_PRESENT: u32 = 0x80;

/// Mask of all defined access-right bits.
pub const SEG_RIGHTS_MASK: u32 = 0x9f;

/// Relies on `bit_field::BitField::get_bits` for `u64`: the result is the
/// bit range `[40, 56)` of the value, shifted down to bit zero.
#[verifier::external_body]
fn descriptor_access_bits(desc: u64) -> (r: u64)
    ensures
        r == (desc >> 40) & 0xffff,
{
    desc.get_bits(40..56)
}

/// The access rights of one segment.
#[derive(Clone, Copy, Debug, PartialEq, Eq, Structural)]
pub struct SegmentAccessRights {
    pub bits: u32,
}

/// The access-right bits carried in bits `[40, 56)` of a descriptor,
/// truncated to the defined bits.
pub open spec fn spec_access_rights_from_descriptor(desc: u64) -> u32 {
    (((desc >> 40) & 0xffff) as u32) & SEG_RIGHTS_MASK
}

impl SegmentAccessRights {
    /// Extracts the access rights from a whole descriptor, keeping only the
    /// defined bits.
    pub fn from_descriptor(desc: u64) -> (r: Self)
        ensures
            r.bits == spec_access_rights_from_descriptor(desc),
    {
        let field = descriptor_access_bits(desc);
        SegmentAccessRights { bits: (field as u32) & SEG_RIGHTS_MASK }
    }

    /// The empty set of rights.
    pub fn empty() -> (r: Self)
        ensures
            r.bits == 0,
    {
        SegmentAccessRights { bits: 0 }
    }
}

/// One segment of the guest register state.
#[derive(Clone, Copy, Debug, PartialEq, Eq, Structural)]
pub struct Segment {
    pub base: u64,
    pub limit: u64,
    pub access_rights: SegmentAccessRights,
}

impl Segment {
    /// The invalid segment: zero base and limit, no rights.
    pub fn invalid() -> (r: Self)
        ensures
            r.base == 0,
            r.limit == 0,
            r.access_rights.bits == 0,
    {
        Segment { base: 0, limit: 0, access_rights: SegmentAccessRights { bits: 0 } }
    }

    /// Builds a segment from its base, limit and raw rights, keeping only
    /// the defined right bits.
    pub fn from_descriptor(base: u64, limit: u64, rights: u32) -> (r: Self)
        ensures
            r.base == base,
            r.limit == limit,
            r.access_rights.bits == rights & SEG_RIGHTS_MASK,
    {
        Segment {
            base,
            limit,
            access_rights: SegmentAccessRights { bits: rights & SEG_RIGHTS_MASK },
        }
    }
}

// Access-right bits of a memory region.
pub const MEM_ACCESS_READABLE: u32 = 0x1;
pub const MEM_ACCESS_WRITABLE: u32 = 0x2;
pub const MEM_ACCESS_EXECUTABLE: u32 = 0x4;
pub const MEM_ACCESS_PRESENT: u32 = 0x8;

/// One region of guest memory with its access rights.
#[derive(Clone, Copy, Debug, PartialEq, Eq, Structural)]
pub struct MemoryRegion {
    pub start: u64,
    pub size: u64,
    pub access_rights: u32,
}

impl MemoryRegion {
    /// The invalid region: empty, with no rights.
    pub fn invalid() -> (r: Self)
        ensures
            r.start == 0,
            r.size == 0,
            r.access_rights == 0,
    {
        MemoryRegion { start: 0, size: 0, access_rights: 0 }
    }

    /// Builds a region from its start, size and rights.
    pub fn new(start: u64, size: u64, rights: u32) -> (r: Self)
        ensures
            r.start == start,
            r.size == size,
            r.access_rights == rights,
    {
        MemoryRegion { start, size, access_rights: rights }
    }
}

} // verus!
