//! Control core for the backlight brightness of external displays
//! driven over DDC/CI (Display Data Channel Command Interface).
//!
//! The library owns the registry of currently known monitors and the
//! policy that decides how cached brightness values react to hardware
//! reads, writes, and toggle requests. The DDC/CI transactions
//! themselves are carried by the `ddc_hi` crate behind a small trusted
//! boundary; everything the registry decides is verified.

use vstd::prelude::*;

mod ddc;

pub mod cache;
pub mod monitor;
pub mod registry;

verus! {

/// Name of the panel icon that represents a cached brightness level.
pub fn brightness_icon(brightness: u16) -> (r: &'static str)
    ensures
        brightness > 66 ==> r@ == "cosmic-applet-battery-display-brightness-high-symbolic"@,
        33 < brightness <= 66 ==> r@ == "cosmic-applet-battery-display-brightness-medium-symbolic"@,
        0 < brightness <= 33 ==> r@ == "cosmic-applet-battery-display-brightness-low-symbolic"@,
        brightness == 0 ==> r@ == "cosmic-applet-battery-display-brightness-off-symbolic"@,
{
    if brightness > 66 {
        "cosmic-applet-battery-display-brightness-high-symbolic"
    } else if brightness > 33 {
        "cosmic-applet-battery-display-brightness-medium-symbolic"
    } else if brightness > 0 {
        "cosmic-applet-battery-display-brightness-low-symbolic"
    } else {
        "cosmic-applet-battery-display-brightness-off-symbolic"
    }
}

} // verus!
