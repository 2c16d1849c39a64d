use couch_gui::core_floor::CoreFloor;
use couch_gui::display::{
    backlight_writes, chosen_pacing, display_asleep, errno_name, forced_writes, geometry, keys_lit,
    level_in, lit_in, next_pacing, probe, reasons, sleep_ns, to_correct, trial, tried, Geometry,
    Pacing, Standby, Trial, SHORT_NS,
};

#[test]
fn a_backlight_write_is_never_dropped() {
    assert_eq!(backlight_writes(128, Some(128)), [129, 128]);
    assert_eq!(backlight_writes(255, Some(255)), [254, 255]);
    assert_eq!(backlight_writes(255, Some(10)), [255]);
    assert_eq!(backlight_writes(255, None), [255]);
    assert_eq!(forced_writes(0), [1, 0]);
    assert_eq!(level_in(" 200\n"), Some(200));
    assert_eq!(level_in("256"), None);
    assert_eq!(level_in("-0"), None);
}

#[test]
fn the_keys_are_lit_only_while_the_screen_is_awake() {
    assert!(keys_lit(true, 255, Some(255)));
    assert!(!keys_lit(false, 255, Some(255)));
    assert!(!keys_lit(true, 255, Some(40)));
    assert!(!keys_lit(true, 0, Some(0)));
    assert!(!keys_lit(true, 255, None));
    assert_eq!(lit_in("255\n"), Some(true));
    assert_eq!(lit_in("0"), Some(false));
    assert_eq!(lit_in("lit"), None);
    assert_eq!(to_correct(true, Some(false)), Some(false));
    assert_eq!(to_correct(true, Some(true)), None);
    assert_eq!(to_correct(true, None), None);
}

#[test]
fn a_wait_is_used_only_where_it_waits() {
    let mut why = vec![];
    assert_eq!(probe("FBIO_WAITFORVSYNC", &mut why, Ok(16_600_000)), Some(16_600_000));
    assert!(why.is_empty());
    assert_eq!(reasons(&why), "");
    assert_eq!(probe("FBIO_WAITFORVSYNC", &mut why, Err(25)), None);
    assert_eq!(probe("FBIOPAN_DISPLAY", &mut why, Ok(1_234_000)), None);
    assert_eq!(
        reasons(&why),
        " (FBIO_WAITFORVSYNC: ENOTTY; FBIOPAN_DISPLAY: returned in 1.23ms)"
    );
    assert_eq!(tried(""), (false, false));
    assert_eq!(tried("auto"), (true, true));
    assert_eq!(tried("pan"), (false, true));
    assert_eq!(tried("wait"), (true, false));
    assert_eq!(chosen_pacing(Some(1), Some(1)), Pacing::WaitForVsync);
    assert_eq!(chosen_pacing(None, Some(1)), Pacing::Pan);
    assert_eq!(chosen_pacing(None, None), Pacing::Sleep);
    for (errno, name) in
        [(1, "EPERM"), (4, "EINTR"), (22, "EINVAL"), (38, "ENOSYS"), (-1, "errno -1")]
    {
        assert_eq!(errno_name(errno), name);
    }
}

#[test]
fn a_wait_that_broke_is_not_used_again() {
    assert_eq!(next_pacing(Pacing::Pan, None, 17_000_000), Pacing::Pan);
    assert_eq!(next_pacing(Pacing::Pan, Some(4), 17_000_000), Pacing::Pan);
    assert_eq!(next_pacing(Pacing::Pan, Some(22), 0), Pacing::Sleep);
    assert_eq!(next_pacing(Pacing::WaitForVsync, None, 100_000_001), Pacing::Sleep);
    assert_eq!(sleep_ns(Pacing::Sleep, 6_667_000), 10_000_000);
    assert_eq!(sleep_ns(Pacing::Sleep, 20_000_000), 0);
    assert_eq!(sleep_ns(Pacing::Pan, 0), 0);
}

#[test]
fn the_display_is_measured_by_its_driver() {
    let usual = Geometry { width: 480, height: 800, stride: 1920 };
    assert_eq!(geometry(None, None), usual);
    assert_eq!(geometry(Some((0, 800)), Some("junk")), usual);
    assert_eq!(
        geometry(Some((320, 240)), Some("2048\n")),
        Geometry { width: 320, height: 240, stride: 2048 }
    );
}

#[test]
fn standby_powers_the_panel_and_its_floor_in_order() {
    let mut standby = Standby { blanked: false };
    let first = standby.blank(true);
    assert!(first.power && !first.floor);
    let after = standby.powered(true, false);
    assert!(!after.floor && !standby.blanked, "a failed ioctl changes nothing");
    let after = standby.powered(true, true);
    assert!(after.floor && !after.refresh && standby.blanked);
    let again = standby.blank(true);
    assert!(again.floor && !again.power);
    let wake = standby.blank(false);
    assert!(wake.floor && wake.power);
    assert!(standby.powered(false, true).refresh);
    assert!(!standby.unblank_if_asleep(false));
    assert!(standby.unblank_if_asleep(true));
    assert!(standby.blanked);
    assert!(display_asleep("LCM\nState=Sleep\n"));
    assert!(!display_asleep("State=Alive"));
}

#[test]
fn standby_releases_the_floor_and_wake_restores_the_original_setting() {
    for floor in [2, 3, 4] {
        let original = format!("{floor}\n");
        let mut policy = CoreFloor::new(Some(&original));
        let written = policy.display_off(true).unwrap();
        assert_eq!(written, "1\n");
        policy.written(true);
        let written = policy.display_off(false).unwrap();
        assert_eq!(written, original);
        policy.written(false);
        assert_eq!(policy.display_off(false), None);
    }
}

#[test]
fn a_failed_write_is_retried_and_unknown_interfaces_are_left_alone() {
    let policy = CoreFloor::new(Some("3\n"));
    assert_eq!(policy.display_off(true).as_deref(), Some("1\n"));
    assert_eq!(policy.display_off(true).as_deref(), Some("1\n"));
    assert_eq!(CoreFloor::new(Some("3 0\n")).display_off(true), None);
    assert_eq!(CoreFloor::new(None).display_off(true), None);
}

#[test]
fn a_short_wait_is_written_to_the_hundredth() {
    let shown = |ns: u64| {
        let mut why = vec![];
        assert_eq!(probe("wait", &mut why, Ok(ns)), None);
        why.remove(0)
    };
    assert_eq!(shown(35_000), "wait: returned in 0.03ms");
    for ns in (0..SHORT_NS).step_by(2_500) {
        let seconds = std::time::Duration::from_nanos(ns).as_secs_f64();
        assert_eq!(shown(ns), format!("wait: returned in {:.2}ms", seconds * 1e3));
    }
    let mut why = vec![];
    assert_eq!(probe("wait", &mut why, Ok(SHORT_NS)), Some(SHORT_NS));
}

#[test]
fn a_wait_is_tried_twice_and_not_after_an_error() {
    assert!(matches!(trial(0, Ok(5)), Trial::Again));
    assert!(matches!(trial(1, Ok(7)), Trial::Over(Ok(7))));
    assert!(matches!(trial(0, Err(25)), Trial::Over(Err(25))));
    assert!(matches!(trial(1, Err(4)), Trial::Over(Err(4))));
}
