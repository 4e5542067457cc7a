//! Tests of the enclave-creation validator.

use hyperenclave::error::HvError;
use hyperenclave::sgx::{SgxAttributes, SgxSecs};

fn minimal_secs() -> SgxSecs {
    SgxSecs {
        size: 4096,
        ssa_frame_size: 1,
        ms_buf_size: 4096,
        attributes: SgxAttributes { xfrm: 0x3 },
    }
}

#[test]
fn one_page_enclave_is_minimum_legal() {
    assert!(minimal_secs().validate().is_ok());
}

#[test]
fn size_one_byte_over_a_page_is_rejected() {
    let mut secs = minimal_secs();
    secs.size = 4097;
    assert_eq!(secs.validate(), Err(HvError::InvalidParam));
}

#[test]
fn size_below_one_page_is_rejected() {
    let mut secs = minimal_secs();
    secs.size = 2048;
    assert_eq!(secs.validate(), Err(HvError::InvalidParam));
}

#[test]
fn large_power_of_two_size_is_accepted() {
    let mut secs = minimal_secs();
    secs.size = 1 << 30;
    assert!(secs.validate().is_ok());
}

#[test]
fn mask_missing_legacy_components_is_rejected() {
    let mut secs = minimal_secs();
    secs.attributes.xfrm = 0x2;
    assert_eq!(secs.validate(), Err(HvError::InvalidParam));
    secs.attributes.xfrm = 0x1;
    assert_eq!(secs.validate(), Err(HvError::InvalidParam));
    secs.attributes.xfrm = 0x0;
    assert_eq!(secs.validate(), Err(HvError::InvalidParam));
}

#[test]
fn mask_with_unsupported_component_is_rejected() {
    let mut secs = minimal_secs();
    // Component eight is not in the supported set.
    secs.attributes.xfrm = 0x3 | 0x100;
    assert_eq!(secs.validate(), Err(HvError::InvalidParam));
}

#[test]
fn empty_marshalling_buffer_is_rejected() {
    let mut secs = minimal_secs();
    secs.ms_buf_size = 0;
    assert_eq!(secs.validate(), Err(HvError::InvalidParam));
}

#[test]
fn misaligned_marshalling_buffer_is_rejected() {
    let mut secs = minimal_secs();
    secs.ms_buf_size = 4097;
    assert_eq!(secs.validate(), Err(HvError::InvalidParam));
}

#[test]
fn declared_frame_too_small_is_rejected() {
    let mut secs = minimal_secs();
    secs.ssa_frame_size = 0;
    assert_eq!(secs.validate(), Err(HvError::InvalidParam));
}

#[test]
fn wide_vector_components_fit_one_frame() {
    let mut secs = minimal_secs();
    // Legacy pair plus the first wide-vector component: the image ends at
    // byte 832, and the whole frame needs 1032 bytes.
    secs.attributes.xfrm = 0x7;
    secs.ssa_frame_size = 1;
    assert!(secs.validate().is_ok());
}

#[test]
fn frame_over_ceiling_is_rejected_despite_large_declaration() {
    let mut secs = minimal_secs();
    // The matrix-tile component ends at byte 11008; the computed minimum
    // exceeds the build-time ceiling, so even a four-page declared frame
    // does not help.
    secs.attributes.xfrm = 0x3 | 0x40000;
    secs.ssa_frame_size = 4;
    assert_eq!(secs.validate(), Err(HvError::InvalidParam));
}
