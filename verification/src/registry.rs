//! The monitor registry: the source of truth for which monitors exist
//! and their last-known brightness, mediating all protocol traffic.

use vstd::prelude::*;

use crate::cache::{
    clamp_brightness, clamped, refreshed, refreshed_all, toggle_target, toggle_value,
    RegistryError,
};
use crate::monitor::Monitor;

verus! {

/// Ordered sequence of currently known monitors, in enumeration order.
/// It is rebuilt wholesale by `enumerate` — never patched one monitor
/// at a time — and exposes the cached brightness values and labels as
/// the snapshot the UI renders from.
pub struct Registry {
    monitors: Vec<Monitor>,
}

impl Registry {
    /// The monitors the registry holds, in enumeration order.
    pub closed spec fn monitors_seq(&self) -> Seq<Monitor> {
        self.monitors@
    }

    /// Cached brightness of every monitor, in enumeration order.
    pub closed spec fn brightness_seq(&self) -> Seq<u16> {
        self.monitors_seq().map(|i: int, m: Monitor| m.brightness)
    }

    /// Label of every monitor, in enumeration order.
    pub closed spec fn labels_seq(&self) -> Seq<Option<String>> {
        self.monitors_seq().map(|i: int, m: Monitor| m.label)
    }

    /// Every cached brightness is a percentage.
    pub open spec fn inv(&self) -> bool {
        forall|i: int|
            0 <= i < self.brightness_seq().len() ==> self.brightness_seq()[i] <= 100
    }

    /// Wraps a ready-made monitor list as the registry: exactly those
    /// monitors, in exactly that order — the position in the list is
    /// the external identifier every later command goes by.
    pub fn from_monitors(monitors: Vec<Monitor>) -> (r: Registry)
        ensures
            r.monitors_seq() == monitors@,
            r.brightness_seq() == monitors@.map(|i: int, m: Monitor| m.brightness),
            r.labels_seq() == monitors@.map(|i: int, m: Monitor| m.label),
    {
        Registry { monitors }
    }

    /// Discovers every display currently exposing DDC/CI and builds a
    /// fresh registry from exactly what was found, each monitor with a
    /// zero brightness placeholder: reads are deferred to an explicit
    /// refresh. A display that cannot be opened is silently excluded
    /// by the discovery itself, and the previous registry's handles
    /// are dropped when the caller replaces it with this one.
    pub fn enumerate() -> (r: Registry)
        ensures
            r.brightness_seq().len() == r.labels_seq().len(),
            forall|i: int| 0 <= i < r.brightness_seq().len() ==> r.brightness_seq()[i] == 0,
            r.inv(),
    {
        Registry::from_monitors(Monitor::new_vec())
    }

    /// How many monitors are currently known.
    pub fn len(&self) -> (n: usize)
        ensures
            n == self.brightness_seq().len(),
    {
        self.monitors.len()
    }

    /// The cached brightness at `index`.
    pub fn brightness_at(&self, index: usize) -> (b: u16)
        requires
            index < self.brightness_seq().len(),
        ensures
            b == self.brightness_seq()[index as int],
    {
        let m = &self.monitors[index];
        m.brightness
    }

    /// The label at `index`.
    pub fn label_at(&self, index: usize) -> (l: &Option<String>)
        requires
            index < self.labels_seq().len(),
        ensures
            *l == self.labels_seq()[index as int],
    {
        &self.monitors[index].label
    }

    /// Issues one brightness read per monitor, in order. A successful
    /// read replaces that monitor's cache with the reported value
    /// clamped into range; a failed read leaves that cache untouched
    /// and affects no other monitor. Per-monitor errors are absorbed:
    /// the refresh always runs to completion.
    pub fn refresh_all(&mut self)
        ensures
            final(self).brightness_seq().len() == old(self).brightness_seq().len(),
            final(self).labels_seq() == old(self).labels_seq(),
            exists|readings: Seq<Option<u16>>|
                readings.len() == old(self).brightness_seq().len() && final(self).brightness_seq()
                    == refreshed_all(old(self).brightness_seq(), readings),
            old(self).inv() ==> final(self).inv(),
    {
        let ghost prev = old(self).monitors@;
        let mut done: Vec<Monitor> = Vec::new();
        let ghost mut readings: Seq<Option<u16>> = Seq::empty();
        while self.monitors.len() > 0
            invariant
                done@.len() + self.monitors@.len() == prev.len(),
                readings.len() == done@.len(),
                forall|j: int|
                    0 <= j < done@.len() ==> done@[j].brightness == refreshed(
                        prev[j].brightness,
                        readings[j],
                    ),
                forall|j: int| 0 <= j < done@.len() ==> done@[j].label == prev[j].label,
                forall|j: int|
                    0 <= j < self.monitors@.len() ==> self.monitors@[j] == prev[done@.len() + j],
            decreases self.monitors@.len(),
        {
            let mut m = self.monitors.remove(0);
            let ghost m0 = m;
            m.update_brightness();
            proof {
                let reading = choose|r: Option<u16>| m.brightness == refreshed(m0.brightness, r);
                readings = readings.push(reading);
            }
            done.push(m);
        }
        self.monitors = done;
        proof {
            assert(self.brightness_seq() =~= refreshed_all(old(self).brightness_seq(), readings));
            assert(self.labels_seq() =~= old(self).labels_seq());
        }
    }

    /// Caches the requested brightness at `index` — defensively
    /// clamped into range — then makes one best-effort hardware write.
    /// The cache reflects the request whether or not the write is
    /// accepted; a write failure is absorbed, never retried. A stale
    /// index is rejected and leaves the registry unmodified.
    pub fn set_brightness(&mut self, index: usize, value: u16) -> (r: Result<(), RegistryError>)
        ensures
            index < old(self).brightness_seq().len() ==> r is Ok && final(self).brightness_seq()
                == old(self).brightness_seq().update(index as int, clamped(value)),
            index >= old(self).brightness_seq().len() ==> r == Err::<(), RegistryError>(
                RegistryError::IndexOutOfRange,
            ) && final(self).brightness_seq() == old(self).brightness_seq(),
            final(self).labels_seq() == old(self).labels_seq(),
            old(self).inv() ==> final(self).inv(),
    {
        if index < self.monitors.len() {
            let v = clamp_brightness(value);
            let m = &mut self.monitors[index];
            m.set_screen_brightness(v);
            proof {
                assert(self.brightness_seq() =~= old(self).brightness_seq().update(
                    index as int,
                    clamped(value),
                ));
                assert(self.labels_seq() =~= old(self).labels_seq());
            }
            Ok(())
        } else {
            Err(RegistryError::IndexOutOfRange)
        }
    }

    /// Reads the cached brightness at `index` and requests full
    /// brightness if it is exactly zero, zero otherwise — a pure
    /// policy built atop `set_brightness`, with no separate protocol
    /// path. A stale index is rejected and leaves the registry
    /// unmodified.
    pub fn toggle_min_max(&mut self, index: usize) -> (r: Result<(), RegistryError>)
        ensures
            index < old(self).brightness_seq().len() ==> r is Ok && final(self).brightness_seq()
                == old(self).brightness_seq().update(
                index as int,
                toggle_target(old(self).brightness_seq()[index as int]),
            ),
            index >= old(self).brightness_seq().len() ==> r == Err::<(), RegistryError>(
                RegistryError::IndexOutOfRange,
            ) && final(self).brightness_seq() == old(self).brightness_seq(),
            final(self).labels_seq() == old(self).labels_seq(),
            old(self).inv() ==> final(self).inv(),
    {
        if index < self.monitors.len() {
            let current = {
                let m = &self.monitors[index];
                m.brightness
            };
            let t = toggle_value(current);
            let r = self.set_brightness(index, t);
            proof {
                assert(clamped(t) == toggle_target(old(self).brightness_seq()[index as int]));
            }
            r
        } else {
            Err(RegistryError::IndexOutOfRange)
        }
    }
}

} // verus!
