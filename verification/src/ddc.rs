//! Trusted boundary to the `ddc_hi` crate, which carries the DDC/CI
//! protocol transactions.
//!
//! What a hardware transaction returns depends on the attached
//! displays and on bus conditions, so these wrappers promise nothing
//! about the values that come back; their callers state what holds of
//! every outcome.

use vstd::prelude::*;

use ddc_hi::Ddc;

verus! {

/// `ddc_hi::Display`: an exclusively owned, open control channel to
/// one physical display, with the metadata gathered at discovery.
#[verifier::external_type_specification]
#[verifier::external_body]
pub struct ExDisplay(ddc_hi::Display);

/// Relies on `ddc_hi::Display::enumerate`: platform-specific discovery
/// of every display that answers on a DDC/CI-capable bus; a display
/// that cannot be opened is left out. What it finds depends on the
/// machine, so nothing is promised of the result.
#[verifier::external_body]
pub(crate) fn enumerate_displays() -> Vec<ddc_hi::Display> {
    ddc_hi::Display::enumerate()
}

/// Relies on the `model_name` field of `ddc_hi::DisplayInfo`: the
/// optional model name gathered at discovery, which the hardware is
/// free to omit.
#[verifier::external_body]
pub(crate) fn display_model_name(display: &ddc_hi::Display) -> Option<String> {
    display.info.model_name.clone()
}

/// Relies on `ddc_hi::Ddc::get_vcp_feature` and `VcpValue::value`: one
/// read transaction for the given VCP feature code, yielding the
/// 16-bit value the display reports, or `None` on any protocol error.
/// The value is the hardware's to choose, so nothing is promised of it.
#[verifier::external_body]
pub(crate) fn read_vcp_feature(display: &mut ddc_hi::Display, code: u8) -> Option<u16> {
    match display.handle.get_vcp_feature(code) {
        Ok(v) => Some(v.value()),
        Err(_) => None,
    }
}

/// Relies on `ddc_hi::Ddc::set_vcp_feature`: one write transaction for
/// the given VCP feature code; reports whether the display accepted
/// it. Whether a write sticks is the hardware's to decide.
#[verifier::external_body]
pub(crate) fn write_vcp_feature(display: &mut ddc_hi::Display, code: u8, value: u16) -> bool {
    display.handle.set_vcp_feature(code, value).is_ok()
}

} // verus!
