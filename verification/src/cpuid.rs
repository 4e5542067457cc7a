//! The CPU-feature capability consumed by the rest of the core.
//!
//! Feature probing itself is a hardware collaborator outside of this core:
//! the identity-register values arrive as plain words, and
//! [`CpuFeatures::from_registers`] combines them into the feature word with
//! undefined bits dropped. [`CpuFeatures::new`] gathers the registers of the
//! baseline platform this hypervisor is built for; the extended-state
//! component layout is the table that platform's hardware reports.

use vstd::prelude::*;

verus! {

// Feature bits of the combined feature word.
pub const FEATURE_FP: u64 = 0x1;
pub const FEATURE_ADVSIMD: u64 = 0x2;
pub const FEATURE_EL2: u64 = 0x4;
pub const FEATURE_EL3: u64 = 0x8;
pub const FEATURE_AES: u64 = 0x10;
pub const FEATURE_SHA1: u64 = 0x20;
pub const FEATURE_SHA256: u64 = 0x40;
pub const FEATURE_ATOMIC: u64 = 0x80;
pub const FEATURE_SVE: u64 = 0x100;

/// Mask of all defined feature bits; register bits outside it are dropped
/// when the feature word is gathered.
pub const FEATURE_MASK: u64 = 0x1ff;

/// Value of the processor feature register of the baseline platform:
/// floating point, advanced SIMD and the hypervisor exception level.
pub const PFR0_BASELINE: u64 = 0x7;

/// Value of the instruction-set feature register of the baseline platform:
/// AES, SHA-1, SHA-256 and atomic instructions.
pub const ISAR0_BASELINE: u64 = 0xf0;

/// Extended-state components that may legally be enabled in the
/// extended-state-enable register: the legacy floating-point and SIMD pair,
/// the wide-vector and bound-register components, and the matrix-tile pair.
pub const XCR0_SUPPORTED_BITS: u64 = 0x600ff;

/// Identity-register selectors understood by [`read_system_register`].
#[derive(Clone, Copy, Debug)]
pub enum ArmSysReg {
    IdAa64Pfr0El1,
    IdAa64Isar0El1,
    IdAa64Mmfr0El1,
}

/// The value that a feature identity register reports on the baseline
/// platform.
pub open spec fn spec_system_register(reg: ArmSysReg) -> u64 {
    match reg {
        ArmSysReg::IdAa64Pfr0El1 => PFR0_BASELINE,
        ArmSysReg::IdAa64Isar0El1 => ISAR0_BASELINE,
        ArmSysReg::IdAa64Mmfr0El1 => 0,
    }
}

/// Reads a feature identity register of the baseline platform.
fn read_system_register(reg: ArmSysReg) -> (r: u64)
    ensures
        r == spec_system_register(reg),
{
    match reg {
        ArmSysReg::IdAa64Pfr0El1 => PFR0_BASELINE,
        ArmSysReg::IdAa64Isar0El1 => ISAR0_BASELINE,
        ArmSysReg::IdAa64Mmfr0El1 => 0,
    }
}

/// The feature word gathered from two identity-register values: their
/// union, with undefined bits dropped.
pub open spec fn spec_features_from(pfr0: u64, isar0: u64) -> u64 {
    (pfr0 | isar0) & FEATURE_MASK
}

/// The feature word that [`CpuFeatures::new`] gathers.
pub open spec fn spec_baseline_features() -> u64 {
    spec_features_from(PFR0_BASELINE, ISAR0_BASELINE)
}

/// The offset and size, in bytes from the start of an extended-state save
/// area, of one extended-state component; `(0, 0)` for a component the
/// hardware does not implement.
pub open spec fn spec_xsave_state_info(sub_leaf: usize) -> (usize, usize) {
    if sub_leaf == 2 {
        (576, 256)
    } else if sub_leaf == 3 {
        (960, 64)
    } else if sub_leaf == 4 {
        (1024, 64)
    } else if sub_leaf == 5 {
        (1088, 64)
    } else if sub_leaf == 6 {
        (1152, 512)
    } else if sub_leaf == 7 {
        (1664, 1024)
    } else if sub_leaf == 17 {
        (2752, 64)
    } else if sub_leaf == 18 {
        (2816, 8192)
    } else {
        (0, 0)
    }
}

/// The features reported by the CPU.
#[derive(Clone, Copy, Debug)]
pub struct CpuFeatures {
    features: u64,
}

impl CpuFeatures {
    /// The feature word this descriptor holds.
    pub closed spec fn spec_features(&self) -> u64 {
        self.features
    }

    /// Combines two identity-register values into one descriptor: the
    /// feature word is their union with undefined bits dropped, and each
    /// accessor afterwards reports exactly its bit of that word.
    pub fn from_registers(pfr0: u64, isar0: u64) -> (r: Self)
        ensures
            r.spec_features() == spec_features_from(pfr0, isar0),
    {
        CpuFeatures { features: (pfr0 | isar0) & FEATURE_MASK }
    }

    /// Gathers the feature registers of the baseline platform into one
    /// descriptor.
    pub fn new() -> (r: Self)
        ensures
            r.spec_features() == spec_baseline_features(),
    {
        let pfr0 = read_system_register(ArmSysReg::IdAa64Pfr0El1);
        let isar0 = read_system_register(ArmSysReg::IdAa64Isar0El1);
        CpuFeatures::from_registers(pfr0, isar0)
    }

    /// Whether the CPU offers the hypervisor exception level.
    pub fn has_virtualization(&self) -> (r: bool)
        ensures
            r == (self.spec_features() & FEATURE_EL2 != 0),
    {
        self.features & FEATURE_EL2 != 0
    }

    /// Whether the CPU offers floating-point registers.
    pub fn has_floating_point(&self) -> (r: bool)
        ensures
            r == (self.spec_features() & FEATURE_FP != 0),
    {
        self.features & FEATURE_FP != 0
    }

    /// Whether the CPU offers advanced SIMD registers.
    pub fn has_advsimd(&self) -> (r: bool)
        ensures
            r == (self.spec_features() & FEATURE_ADVSIMD != 0),
    {
        self.features & FEATURE_ADVSIMD != 0
    }

    /// Whether the CPU offers the scalable vector extension.
    pub fn has_sve(&self) -> (r: bool)
        ensures
            r == (self.spec_features() & FEATURE_SVE != 0),
    {
        self.features & FEATURE_SVE != 0
    }

    /// Whether the CPU offers AES instructions.
    pub fn has_aes(&self) -> (r: bool)
        ensures
            r == (self.spec_features() & FEATURE_AES != 0),
    {
        self.features & FEATURE_AES != 0
    }

    /// Whether the CPU offers SHA-1 instructions.
    pub fn has_sha1(&self) -> (r: bool)
        ensures
            r == (self.spec_features() & FEATURE_SHA1 != 0),
    {
        self.features & FEATURE_SHA1 != 0
    }

    /// Whether the CPU offers SHA-256 instructions.
    pub fn has_sha256(&self) -> (r: bool)
        ensures
            r == (self.spec_features() & FEATURE_SHA256 != 0),
    {
        self.features & FEATURE_SHA256 != 0
    }

    /// Whether the CPU offers atomic read-modify-write instructions.
    pub fn has_atomic(&self) -> (r: bool)
        ensures
            r == (self.spec_features() & FEATURE_ATOMIC != 0),
    {
        self.features & FEATURE_ATOMIC != 0
    }

    /// The set of extended-state components that may be enabled in the
    /// extended-state-enable register.
    pub fn xcr0_supported_bits(&self) -> (r: u64)
        ensures
            r == XCR0_SUPPORTED_BITS,
    {
        XCR0_SUPPORTED_BITS
    }

    /// The offset and size of one extended-state component in a save area,
    /// as the hardware feature descriptor reports them.
    pub fn xsave_state_info(&self, sub_leaf: usize) -> (r: (usize, usize))
        ensures
            r == spec_xsave_state_info(sub_leaf),
    {
        if sub_leaf == 2 {
            (576, 256)
        } else if sub_leaf == 3 {
            (960, 64)
        } else if sub_leaf == 4 {
            (1024, 64)
        } else if sub_leaf == 5 {
            (1088, 64)
        } else if sub_leaf == 6 {
            (1152, 512)
        } else if sub_leaf == 7 {
            (1664, 1024)
        } else if sub_leaf == 17 {
            (2752, 64)
        } else if sub_leaf == 18 {
            (2816, 8192)
        } else {
            (0, 0)
        }
    }
}

} // verus!
