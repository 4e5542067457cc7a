//! The extended-register state model: the live extended registers of a CPU
//! and the extended-state image inside a state-save-area frame.
//!
//! Each extended-state component (floating point, SIMD, wide vectors, ...)
//! is modeled as one word; which components an operation touches is governed
//! by an extended-state mask (XFRM) whose bit `k` names component `k`. The
//! architectural initial value of every component is modeled as zero.

use vstd::prelude::*;

verus! {

/// Number of extended-state components the mask can name.
pub const XSAVE_COMPONENTS: usize = 64;

/// Byte size of the legacy floating-point and SIMD region of a save area.
pub const XSAVE_LEGACY_REGION_SIZE: usize = 512;

/// Byte size of the save-area header that follows the legacy region.
pub const XSAVE_HEADER_SIZE: usize = 64;

/// Whether bit `k` of the mask `mask` is set.
pub open spec fn spec_mask_bit(mask: u64, k: int) -> bool {
    mask >> (k as u64) & 1 == 1
}

/// The live extended registers of a CPU, one word per component.
#[derive(Clone, Debug)]
pub struct XsaveState {
    pub comps: Vec<u64>,
}

impl XsaveState {
    /// The state holds one word for every component.
    pub open spec fn wf(&self) -> bool {
        self.comps.len() == XSAVE_COMPONENTS
    }

    /// The modeled contents, component by component.
    pub open spec fn view(&self) -> Seq<u64> {
        self.comps@
    }

    /// Builds the state with every component at its initial value.
    pub fn new() -> (r: Self)
        ensures
            r.wf(),
            r@ =~= Seq::new(XSAVE_COMPONENTS as nat, |k: int| 0u64),
    {
        let mut comps: Vec<u64> = Vec::new();
        let mut k: usize = 0;
        while k < XSAVE_COMPONENTS
            invariant
                comps.len() == k,
                k <= XSAVE_COMPONENTS,
                forall|j: int| 0 <= j < k ==> comps@[j] == 0u64,
            decreases XSAVE_COMPONENTS - k,
        {
            comps.push(0);
            k = k + 1;
        }
        XsaveState { comps }
    }

    /// Reads the modeled contents of component `k`.
    pub fn component(&self, k: usize) -> (r: u64)
        requires
            self.wf(),
            k < XSAVE_COMPONENTS,
        ensures
            r == self@[k as int],
    {
        self.comps[k]
    }

    /// Sets the modeled contents of component `k`.
    pub fn set_component(&mut self, k: usize, v: u64)
        requires
            old(self).wf(),
            k < XSAVE_COMPONENTS,
        ensures
            final(self).wf(),
            final(self)@ =~= old(self)@.update(k as int, v),
    {
        self.comps.set(k, v);
    }
}

/// The live state after the components named by `mask` are reset to their
/// initial value.
pub open spec fn spec_init_components(live: Seq<u64>, mask: u64) -> Seq<u64> {
    Seq::new(live.len(), |k: int| if spec_mask_bit(mask, k) { 0u64 } else { live[k] })
}

/// The image contents after the components named by `mask` are saved from
/// `live` into `image`.
pub open spec fn spec_save_components(image: Seq<u64>, live: Seq<u64>, mask: u64) -> Seq<u64> {
    Seq::new(image.len(), |k: int| if spec_mask_bit(mask, k) { live[k] } else { image[k] })
}

/// The live state after the components named by `mask` are restored from an
/// image whose present-component map is `bv`: a component present in the
/// image is loaded from it, one absent is reset to its initial value.
pub open spec fn spec_restore_components(
    image: Seq<u64>,
    bv: u64,
    live: Seq<u64>,
    mask: u64,
) -> Seq<u64> {
    Seq::new(
        live.len(),
        |k: int|
            if spec_mask_bit(mask, k) {
                if spec_mask_bit(bv, k) {
                    image[k]
                } else {
                    0u64
                }
            } else {
                live[k]
            },
    )
}

/// Whether an image is self-consistent for a resume under `mask`: every
/// component the image marks present must be named by the mask.
pub open spec fn spec_image_consistent(bv: u64, mask: u64) -> bool {
    bv & !mask == 0
}

/// The extended-state image of one state-save-area frame: the saved contents
/// of each component and the map `xstate_bv` of the components that hold
/// saved data.
#[derive(Clone, Debug)]
pub struct XsaveRegion {
    pub xstate_bv: u64,
    pub comps: Vec<u64>,
}

impl XsaveRegion {
    /// The image holds one word for every component.
    pub open spec fn wf(&self) -> bool {
        self.comps.len() == XSAVE_COMPONENTS
    }

    /// The saved contents, component by component.
    pub open spec fn view(&self) -> Seq<u64> {
        self.comps@
    }

    /// Builds a zeroed image that marks no component present.
    pub fn new() -> (r: Self)
        ensures
            r.wf(),
            r.xstate_bv == 0,
            r@ =~= Seq::new(XSAVE_COMPONENTS as nat, |k: int| 0u64),
    {
        let live = XsaveState::new();
        XsaveRegion { xstate_bv: 0, comps: live.comps }
    }

    /// Builds the synthetic image that holds the architectural initial value
    /// of every component: restoring it resets the components named by the
    /// mask.
    pub fn synthetic() -> (r: Self)
        ensures
            r.wf(),
            r.xstate_bv == 0,
            r@ =~= Seq::new(XSAVE_COMPONENTS as nat, |k: int| 0u64),
    {
        XsaveRegion::new()
    }

    /// Saves the live components named by `mask` into this image and marks
    /// exactly them present.
    pub fn save(&mut self, mask: u64, live: &XsaveState)
        requires
            old(self).wf(),
            live.wf(),
        ensures
            final(self).wf(),
            final(self).xstate_bv == mask,
            final(self)@ =~= spec_save_components(old(self)@, live@, mask),
    {
        let mut out: Vec<u64> = Vec::new();
        let mut k: usize = 0;
        while k < XSAVE_COMPONENTS
            invariant
                self == old(self),
                self.wf(),
                live.wf(),
                k <= XSAVE_COMPONENTS,
                out.len() == k,
                forall|j: int|
                    0 <= j < k ==> out@[j] == (if spec_mask_bit(mask, j) {
                        live@[j]
                    } else {
                        old(self)@[j]
                    }),
            decreases XSAVE_COMPONENTS - k,
        {
            if (mask >> k as u64) & 1 == 1 {
                out.push(live.comps[k]);
            } else {
                out.push(self.comps[k]);
            }
            k = k + 1;
        }
        self.comps = out;
        self.xstate_bv = mask;
    }

    /// Restores the components named by `mask` into the live state: one this
    /// image marks present is loaded from it, one absent is reset to its
    /// initial value; components not named by `mask` keep their contents.
    pub fn restore(&self, mask: u64, live: &mut XsaveState)
        requires
            self.wf(),
            old(live).wf(),
        ensures
            final(live).wf(),
            final(live)@ =~= spec_restore_components(self@, self.xstate_bv, old(live)@, mask),
    {
        let mut out: Vec<u64> = Vec::new();
        let mut k: usize = 0;
        while k < XSAVE_COMPONENTS
            invariant
                live == old(live),
                self.wf(),
                live.wf(),
                k <= XSAVE_COMPONENTS,
                out.len() == k,
                forall|j: int|
                    0 <= j < k ==> out@[j] == (if spec_mask_bit(mask, j) {
                        if spec_mask_bit(self.xstate_bv, j) {
                            self@[j]
                        } else {
                            0u64
                        }
                    } else {
                        old(live)@[j]
                    }),
            decreases XSAVE_COMPONENTS - k,
        {
            if (mask >> k as u64) & 1 == 1 {
                if (self.xstate_bv >> k as u64) & 1 == 1 {
                    out.push(self.comps[k]);
                } else {
                    out.push(0);
                }
            } else {
                out.push(live.comps[k]);
            }
            k = k + 1;
        }
        live.comps = out;
    }

    /// Checks that this image is self-consistent for a resume under `mask`:
    /// rejects an image that marks a component present which the mask does
    /// not name.
    pub fn validate_at_resume(&self, mask: u64) -> (r: crate::error::HvResult)
        ensures
            r is Ok <==> spec_image_consistent(self.xstate_bv, mask),
            r is Err ==> r == crate::error::HvResult::<()>::Err(crate::error::HvError::InvalidParam),
    {
        if self.xstate_bv & !mask == 0 {
            Ok(())
        } else {
            Err(crate::error::HvError::InvalidParam)
        }
    }
}

} // verus!
