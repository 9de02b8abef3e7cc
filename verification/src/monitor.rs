//! One physical display and its cached brightness.

use vstd::prelude::*;

use crate::cache::{refreshed, refreshed_value};
use crate::ddc;

verus! {

/// VCP feature code of the backlight brightness control.
pub const BRIGHTNESS_CODE: u8 = 0x10;

/// One physical display currently reachable over DDC/CI, holding the
/// last brightness percentage read from or written to it. The cache
/// may be stale — other software can adjust the hardware out-of-band —
/// but it never leaves `0..=100`.
pub struct Monitor {
    /// Exclusively owned control channel to the display; dropped, and
    /// the underlying bus handle released, on re-enumeration.
    pub display: ddc_hi::Display,
    /// Cached brightness percentage; `0` until the first refresh.
    pub brightness: u16,
    /// Optional model name reported at discovery; descriptive only.
    pub label: Option<String>,
}

impl Monitor {
    /// The cached brightness is a percentage.
    pub open spec fn inv(&self) -> bool {
        self.brightness <= 100
    }

    /// Builds the monitor list from a given set of discovered
    /// displays: one monitor per display, in the given order, each
    /// with a zero brightness placeholder — reads are deferred to an
    /// explicit refresh, so building the list stays cheap. No display
    /// is dropped, duplicated or reordered: the position in the result
    /// is the external identifier every later command goes by.
    pub fn monitors_from(displays: Vec<ddc_hi::Display>) -> (monitors: Vec<Monitor>)
        ensures
            monitors@.len() == displays@.len(),
            forall|i: int| 0 <= i < monitors@.len() ==> monitors@[i].display == displays@[i],
            forall|i: int| 0 <= i < monitors@.len() ==> monitors@[i].brightness == 0,
            forall|i: int| 0 <= i < monitors@.len() ==> monitors@[i].inv(),
    {
        let ghost all = displays@;
        let mut displays = displays;
        let mut monitors: Vec<Monitor> = Vec::new();
        while displays.len() > 0
            invariant
                monitors@.len() + displays@.len() == all.len(),
                forall|i: int| 0 <= i < monitors@.len() ==> monitors@[i].display == all[i],
                forall|i: int| 0 <= i < monitors@.len() ==> monitors@[i].brightness == 0,
                forall|i: int|
                    0 <= i < displays@.len() ==> displays@[i] == all[monitors@.len() + i],
            decreases displays@.len(),
        {
            let display = displays.remove(0);
            let label = ddc::display_model_name(&display);
            monitors.push(Monitor { display, brightness: 0, label });
        }
        monitors
    }

    /// Discovers every display currently exposing DDC/CI — a display
    /// that cannot be opened is silently excluded by the discovery
    /// itself — and builds the monitor list from exactly what was
    /// found, via `monitors_from`.
    pub fn new_vec() -> (monitors: Vec<Monitor>)
        ensures
            forall|i: int| 0 <= i < monitors@.len() ==> monitors@[i].brightness == 0,
            forall|i: int| 0 <= i < monitors@.len() ==> monitors@[i].inv(),
    {
        Monitor::monitors_from(ddc::enumerate_displays())
    }

    /// Optimistically caches the requested brightness, then makes one
    /// best-effort hardware write: the cache reflects the request
    /// whether or not the write is accepted, and a refused write is
    /// absorbed rather than surfaced.
    pub fn set_screen_brightness(&mut self, brightness: u16)
        requires
            brightness <= 100,
        ensures
            final(self).brightness == brightness,
            final(self).label == old(self).label,
            final(self).inv(),
    {
        self.brightness = brightness;
        let _ = ddc::write_vcp_feature(&mut self.display, BRIGHTNESS_CODE, brightness);
    }

    /// Makes one read transaction for the brightness feature: on
    /// success the cache becomes the reported value clamped into
    /// range, on failure it keeps its previous value, so a transient
    /// bus error never snaps a slider to zero.
    pub fn update_brightness(&mut self)
        ensures
            exists|reading: Option<u16>|
                final(self).brightness == refreshed(old(self).brightness, reading),
            old(self).inv() ==> final(self).inv(),
            final(self).label == old(self).label,
    {
        let reading = ddc::read_vcp_feature(&mut self.display, BRIGHTNESS_CODE);
        self.brightness = refreshed_value(self.brightness, reading);
    }
}

} // verus!
