//! The brightness cache policy: how cached percentages react to
//! hardware readings, set requests and min/max toggles.
//!
//! These functions work on plain values and carry the registry's whole
//! decision logic; the registry applies them around its hardware
//! transactions. Cached brightness is a percentage and never leaves
//! `0..=100`, whatever raw values the protocol layer reports.

use vstd::prelude::*;

verus! {

/// Error surfaced to the caller. Hardware I/O failures are absorbed at
/// the registry boundary and never appear here.
#[derive(Clone, Copy, Debug, PartialEq, Eq, Structural)]
pub enum RegistryError {
    /// A monitor index referred to no currently known monitor — a
    /// stale index after a re-enumeration shrank the list.
    IndexOutOfRange,
}

/// A raw hardware value coerced into the cache's range.
pub open spec fn clamped(v: u16) -> u16 {
    if v > 100 {
        100u16
    } else {
        v
    }
}

/// A cache entry after one read attempt: a successful read replaces it
/// with the reported value clamped into range, a failed read leaves it
/// untouched.
pub open spec fn refreshed(prev: u16, reading: Option<u16>) -> u16 {
    match reading {
        Option::Some(v) => clamped(v),
        Option::None => prev,
    }
}

/// Pointwise refresh of a whole cache, one read attempt per entry.
pub open spec fn refreshed_all(prev: Seq<u16>, readings: Seq<Option<u16>>) -> Seq<u16> {
    prev.map(|i: int, b: u16| refreshed(b, readings[i]))
}

/// The brightness a min/max toggle aims for: full from zero, zero from
/// anything else.
pub open spec fn toggle_target(current: u16) -> u16 {
    if current == 0 {
        100u16
    } else {
        0u16
    }
}

/// Coerces a raw brightness value into the cache's range.
pub fn clamp_brightness(v: u16) -> (r: u16)
    ensures
        r == clamped(v),
{
    if v > 100 {
        100
    } else {
        v
    }
}

/// The cache entry that one read attempt leads to.
pub fn refreshed_value(prev: u16, reading: Option<u16>) -> (r: u16)
    ensures
        r == refreshed(prev, reading),
{
    match reading {
        Some(v) => clamp_brightness(v),
        None => prev,
    }
}

/// The brightness to request when a min/max toggle is asked for.
pub fn toggle_value(current: u16) -> (r: u16)
    ensures
        r == toggle_target(current),
{
    if current == 0 {
        100
    } else {
        0
    }
}

/// Refreshes a bare cache against one reading per entry, exactly as a
/// registry-wide refresh does to its monitors' caches.
pub fn apply_readings(cache: &mut Vec<u16>, readings: &Vec<Option<u16>>)
    requires
        old(cache)@.len() == readings@.len(),
    ensures
        final(cache)@ == refreshed_all(old(cache)@, readings@),
{
    let n = cache.len();
    let mut i: usize = 0;
    while i < n
        invariant
            n == old(cache)@.len(),
            readings@.len() == n,
            cache@.len() == n,
            i <= n,
            forall|j: int| 0 <= j < i ==> cache@[j] == refreshed(old(cache)@[j], readings@[j]),
            forall|j: int| i <= j < n ==> cache@[j] == old(cache)@[j],
        decreases n - i,
    {
        let nv = refreshed_value(cache[i], readings[i]);
        cache.set(i, nv);
        i += 1;
    }
    proof {
        assert(cache@ =~= refreshed_all(old(cache)@, readings@));
    }
}

/// Caches a requested brightness, defensively clamped into range, as a
/// set request does before its hardware write; a stale index is
/// rejected and leaves the cache unmodified.
pub fn set_cached(cache: &mut Vec<u16>, index: usize, value: u16) -> (r: Result<
    (),
    RegistryError,
>)
    ensures
        index < old(cache)@.len() ==> r is Ok && final(cache)@ == old(cache)@.update(
            index as int,
            clamped(value),
        ),
        index >= old(cache)@.len() ==> r == Err::<(), RegistryError>(RegistryError::IndexOutOfRange)
            && final(cache)@ == old(cache)@,
{
    if index < cache.len() {
        let v = clamp_brightness(value);
        cache.set(index, v);
        Ok(())
    } else {
        Err(RegistryError::IndexOutOfRange)
    }
}

/// Applies a min/max toggle to a bare cache: the entry goes to full
/// brightness from zero and to zero from anything else; a stale index
/// is rejected and leaves the cache unmodified.
pub fn toggle_cached(cache: &mut Vec<u16>, index: usize) -> (r: Result<(), RegistryError>)
    ensures
        index < old(cache)@.len() ==> r is Ok && final(cache)@ == old(cache)@.update(
            index as int,
            toggle_target(old(cache)@[index as int]),
        ),
        index >= old(cache)@.len() ==> r == Err::<(), RegistryError>(RegistryError::IndexOutOfRange)
            && final(cache)@ == old(cache)@,
{
    if index < cache.len() {
        let t = toggle_value(cache[index]);
        cache.set(index, t);
        Ok(())
    } else {
        Err(RegistryError::IndexOutOfRange)
    }
}

/// A set request lands exactly the requested value in its own slot —
/// whether or not the hardware write that follows succeeds — and
/// touches no other slot.
pub proof fn lemma_set_is_optimistic(cache: Seq<u16>, index: int, value: u16)
    requires
        0 <= index < cache.len(),
        value <= 100,
    ensures
        cache.update(index, clamped(value))[index] == value,
        forall|j: int|
            0 <= j < cache.len() && j != index ==> cache.update(index, clamped(value))[j]
                == cache[j],
{
}

/// Toggling from zero lands on full brightness and toggling again
/// returns to zero; toggling any non-zero brightness lands on zero.
pub proof fn lemma_toggle_roundtrip_from_zero()
    ensures
        toggle_target(0) == 100,
        toggle_target(toggle_target(0)) == 0,
        forall|b: u16| b != 0 ==> toggle_target(b) == 0,
{
}

/// A refresh keeps every cache entry inside `0..=100`, whatever raw
/// values the protocol layer reported — in particular right after an
/// enumeration, when every entry is zero.
pub proof fn lemma_refresh_stays_in_range(prev: Seq<u16>, readings: Seq<Option<u16>>)
    requires
        prev.len() == readings.len(),
        forall|j: int| 0 <= j < prev.len() ==> prev[j] <= 100,
    ensures
        refreshed_all(prev, readings).len() == prev.len(),
        forall|j: int| 0 <= j < prev.len() ==> refreshed_all(prev, readings)[j] <= 100,
{
}

/// A failed read leaves its own monitor's cache entry unchanged, and
/// every entry depends only on its own prior value and its own
/// reading, so no read attempt affects any other monitor.
pub proof fn lemma_failed_read_is_isolated(prev: Seq<u16>, readings: Seq<Option<u16>>, k: int)
    requires
        prev.len() == readings.len(),
        0 <= k < prev.len(),
        readings[k] is None,
    ensures
        refreshed_all(prev, readings)[k] == prev[k],
        forall|j: int|
            0 <= j < prev.len() ==> refreshed_all(prev, readings)[j] == refreshed(
                prev[j],
                readings[j],
            ),
{
}

} // verus!
