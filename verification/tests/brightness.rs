use monitor_brightness::brightness_icon;
use monitor_brightness::cache::{
    apply_readings, clamp_brightness, refreshed_value, set_cached, toggle_cached, toggle_value,
    RegistryError,
};
use monitor_brightness::registry::Registry;

#[test]
fn set_updates_exactly_the_target_slot() {
    let mut cache: Vec<u16> = vec![10, 20];
    assert_eq!(set_cached(&mut cache, 0, 57), Ok(()));
    assert_eq!(cache, vec![57, 20]);
    assert_eq!(set_cached(&mut cache, 1, 0), Ok(()));
    assert_eq!(cache, vec![57, 0]);
    assert_eq!(set_cached(&mut cache, 1, 100), Ok(()));
    assert_eq!(cache, vec![57, 100]);
}

#[test]
fn set_clamps_out_of_range_requests() {
    let mut cache: Vec<u16> = vec![10];
    assert_eq!(set_cached(&mut cache, 0, 250), Ok(()));
    assert_eq!(cache, vec![100]);
    assert_eq!(clamp_brightness(101), 100);
    assert_eq!(clamp_brightness(100), 100);
    assert_eq!(clamp_brightness(0), 0);
    assert_eq!(clamp_brightness(65535), 100);
}

#[test]
fn toggle_roundtrip_from_zero() {
    assert_eq!(toggle_value(0), 100);
    assert_eq!(toggle_value(toggle_value(0)), 0);
    let mut cache: Vec<u16> = vec![0];
    assert_eq!(toggle_cached(&mut cache, 0), Ok(()));
    assert_eq!(cache, vec![100]);
    assert_eq!(toggle_cached(&mut cache, 0), Ok(()));
    assert_eq!(cache, vec![0]);
}

#[test]
fn toggle_from_nonzero_lands_on_zero() {
    assert_eq!(toggle_value(1), 0);
    assert_eq!(toggle_value(40), 0);
    assert_eq!(toggle_value(100), 0);
    assert_eq!(toggle_value(65535), 0);
}

#[test]
fn refresh_clamps_raw_hardware_values() {
    // A fresh enumeration leaves every cache entry at zero; even raw
    // readings far outside the percentage range stay within 0..=100.
    let mut cache: Vec<u16> = vec![0, 0, 0];
    let readings: Vec<Option<u16>> = vec![Some(60000), Some(101), Some(100)];
    apply_readings(&mut cache, &readings);
    assert_eq!(cache, vec![100, 100, 100]);
    assert!(cache.iter().all(|&b| b <= 100));
    assert_eq!(refreshed_value(0, Some(40000)), 100);
    assert_eq!(refreshed_value(0, Some(55)), 55);
}

#[test]
fn failed_read_retains_cache_and_touches_nothing_else() {
    let mut cache: Vec<u16> = vec![40, 75];
    let readings: Vec<Option<u16>> = vec![None, Some(10)];
    apply_readings(&mut cache, &readings);
    assert_eq!(cache, vec![40, 10]);
    assert_eq!(refreshed_value(40, None), 40);
}

#[test]
fn two_display_scenario() {
    // Two displays enumerated ("DisplayA", "DisplayB"), cache fresh at
    // zero; a refresh reports 40 and 75.
    let labels = vec![Some("DisplayA"), Some("DisplayB")];
    assert_eq!(labels.len(), 2);
    let mut cache: Vec<u16> = vec![0, 0];
    apply_readings(&mut cache, &vec![Some(40), Some(75)]);
    assert_eq!(cache, vec![40, 75]);
    // Toggling the first display from 40 (non-zero) lands on zero.
    assert_eq!(toggle_cached(&mut cache, 0), Ok(()));
    assert_eq!(cache, vec![0, 75]);
    assert_eq!(set_cached(&mut cache, 1, 0), Ok(()));
    assert_eq!(cache, vec![0, 0]);
    // Toggling the second display from zero lands on full brightness.
    assert_eq!(toggle_cached(&mut cache, 1), Ok(()));
    assert_eq!(cache, vec![0, 100]);
}

#[test]
fn stale_index_is_rejected_and_cache_unmodified() {
    let mut cache: Vec<u16> = vec![40, 75];
    assert_eq!(
        set_cached(&mut cache, 5, 50),
        Err(RegistryError::IndexOutOfRange)
    );
    assert_eq!(cache, vec![40, 75]);
    assert_eq!(
        toggle_cached(&mut cache, 2),
        Err(RegistryError::IndexOutOfRange)
    );
    assert_eq!(cache, vec![40, 75]);
}

#[test]
fn icon_matches_brightness_level() {
    assert_eq!(
        brightness_icon(100),
        "cosmic-applet-battery-display-brightness-high-symbolic"
    );
    assert_eq!(
        brightness_icon(67),
        "cosmic-applet-battery-display-brightness-high-symbolic"
    );
    assert_eq!(
        brightness_icon(66),
        "cosmic-applet-battery-display-brightness-medium-symbolic"
    );
    assert_eq!(
        brightness_icon(34),
        "cosmic-applet-battery-display-brightness-medium-symbolic"
    );
    assert_eq!(
        brightness_icon(33),
        "cosmic-applet-battery-display-brightness-low-symbolic"
    );
    assert_eq!(
        brightness_icon(1),
        "cosmic-applet-battery-display-brightness-low-symbolic"
    );
    assert_eq!(
        brightness_icon(0),
        "cosmic-applet-battery-display-brightness-off-symbolic"
    );
}

#[test]
fn live_registry_enumerates_refreshes_and_rejects_stale_indices() {
    // Runs against the real discovery path: every monitor found (none,
    // on a machine without DDC/CI displays) starts at zero, stays in
    // range across a refresh, and a stale index is rejected.
    let mut registry = Registry::enumerate();
    let n = registry.len();
    for i in 0..n {
        assert_eq!(registry.brightness_at(i), 0);
    }
    registry.refresh_all();
    assert_eq!(registry.len(), n);
    for i in 0..n {
        assert!(registry.brightness_at(i) <= 100);
    }
    assert_eq!(
        registry.set_brightness(n, 50),
        Err(RegistryError::IndexOutOfRange)
    );
    assert_eq!(
        registry.toggle_min_max(n + 5),
        Err(RegistryError::IndexOutOfRange)
    );
    assert_eq!(registry.len(), n);
}
