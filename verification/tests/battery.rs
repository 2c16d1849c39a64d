use couch_gui::battery::{online, percent, Battery, Status};

#[test]
fn missing_or_invalid_capacity_never_becomes_zero_or_full() {
    for raw in [None, Some(""), Some("oops"), Some("-1"), Some("101")] {
        let b = Battery::parse(raw, Some("Charging"), &[Some(true)]);
        assert_eq!(b.percent, None);
        assert!(b.external_power);
        assert_eq!(b.caption(), "Charging · Battery unavailable");
    }
    assert_eq!(percent(Some("0\n")), Some(0));
    assert_eq!(percent(Some("100\n")), Some(100));
}

#[test]
fn full_and_inhibited_charging_keep_dock_power_without_saying_charging() {
    let full = Battery::parse(Some("100"), Some("Full"), &[Some(false), Some(true)]);
    assert!(full.external_power);
    assert!(!full.charging());
    assert_eq!(full.caption(), "Full · 100%");
    let stopped = Battery::parse(Some("83"), Some("Not charging"), &[Some(true)]);
    assert!(stopped.external_power);
    assert!(!stopped.charging());
    assert_eq!(stopped.caption(), "Plugged in · 83%");
}

#[test]
fn supply_disconnect_overrides_stale_full_status() {
    let b = Battery::parse(Some("100"), Some("Full"), &[Some(false), Some(false)]);
    assert!(!b.external_power);
    assert_eq!(b.status, Status::Discharging);
    assert!(!b.charging());
    assert_eq!(b.caption(), "On battery · 100%");
}

#[test]
fn legacy_status_fallback_and_missing_gauge_are_supported() {
    let b = Battery::parse(None, None, &[None, None]);
    assert_eq!(b.percent, None);
    assert!(!b.external_power);
    assert_eq!(b.status, Status::Unknown);
    let b = Battery::parse(Some("42"), Some("Charging"), &[None]);
    assert!(b.external_power);
    assert!(b.charging());
}

#[test]
fn a_supply_says_whether_it_is_online() {
    assert_eq!(online(Some("1\n")), Some(true));
    assert_eq!(online(Some("0")), Some(false));
    assert_eq!(online(Some("2")), None);
    assert_eq!(online(None), None);
}
