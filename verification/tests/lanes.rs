use couch_gui::activity_buttons::{Feedback, Request};
use couch_gui::commands::{Action, Gesture, Outcome, PowerValue, Reason, VolumeDb, VolumeText};
use couch_gui::commands::{Notice, VolumeReading};
use couch_gui::dispatch::{execute_with_input, level_written, ActionReply, Plan};
use couch_gui::lanes::{assign, lane_full, Admission, Assignment, Lane, DEADLINE_MS};
use couch_gui::model::{ActionSchema, Device, Icon, Integration, RowKey, RowKeys};
use couch_gui::volume::{PluginStatus, HOLD_UP_TENTHS};

fn text(s: &str) -> String {
    s.to_string()
}

fn receiver() -> Device {
    let none = RowKey { supported: false, repeats: false };
    let package = || Integration::Plugin {
        connection_id: text("avr"),
        resource_id: String::new(),
        child: None,
        actions: vec![ActionSchema::SetVolumeDb {
            min_tenths: -800,
            max_tenths: 180,
            step_tenths: 5,
        }],
    };
    Device {
        id: text("avr"),
        name: text("Theater AVR"),
        icon: Icon::Other(0),
        connection: Some(text("avr-connection")),
        integration: Some(package()),
        network: Some(package()),
        identity: None,
        component: None,
        ir: false,
        bluetooth: None,
        can_toggle: false,
        player: false,
        has_screen: false,
        keys: RowKeys {
            volume_up: none,
            volume_down: none,
            mute: none,
            toggle: false,
            power_on: false,
            power_off: false,
            power_repeats: false,
        },
    }
}

fn request(command: &str, repeat: bool) -> Request {
    Request {
        generation: 3,
        at: 0,
        action: Action { device: text("avr"), command: text(command), repeatable: true },
        repeat,
        gesture: Gesture::Short,
        hold: 7,
    }
}

fn reading_at(tenths: i16) -> PluginStatus {
    PluginStatus {
        on: Some(true),
        muted: Some(false),
        volume: None,
        volume_db: Some(VolumeDb::Reading { tenths }),
        light: None,
        cover: None,
    }
}

/// A lane that has read a level.
fn lane_at(tenths: i16) -> Lane {
    let device = receiver();
    let mut lane = Lane::new(3);
    match lane.take(request("mute", false), 0, 7, Some(&device)) {
        Admission::Run { settle, card, .. } => {
            assert!(card.is_none());
            let owed = settle.unwrap();
            assert!(lane.settled(&owed, Some(reading_at(tenths))).is_some());
        }
        Admission::Stale => panic!("a fresh request is sent"),
    }
    assert_eq!(lane.level, Some(tenths));
    lane
}

#[test]
fn a_press_goes_to_its_connections_lane() {
    let mut device = receiver();
    assert!(matches!(
        assign(&request("mute", false), 3, Some(&device)),
        Assignment::Lane(key) if key == "avr-connection"
    ));
    device.connection = None;
    device.identity = Some(text("{\"host\":\"192.0.2.9\"}"));
    assert!(matches!(
        assign(&request("mute", false), 3, Some(&device)),
        Assignment::Lane(key) if key == "{\"host\":\"192.0.2.9\"}"
    ));
    assert!(matches!(assign(&request("mute", false), 4, Some(&device)), Assignment::Stale));
    assert!(matches!(assign(&request("mute", false), 3, None), Assignment::Removed));
    assert!(lane_full(true).is_none());
    assert!(matches!(lane_full(false), Some(Feedback::Error(Reason::QueueFull))));
}

#[test]
fn a_request_that_went_stale_is_never_sent() {
    let device = receiver();
    let mut lane = Lane::new(3);
    let fresh = |lane: &mut Lane, repeat, age, hold| {
        matches!(
            lane.take(request("mute", repeat), age, hold, Some(&device)),
            Admission::Run { .. }
        )
    };
    assert!(fresh(&mut lane, false, DEADLINE_MS, 8));
    assert!(!fresh(&mut lane, false, DEADLINE_MS + 1, 7));
    assert!(fresh(&mut lane, true, 0, 7));
    // The key was let go while the repeat waited.
    assert!(!fresh(&mut lane, true, 0, 8));
    assert!(lane.follow(4));
    assert!(!fresh(&mut lane, false, 0, 7));
    assert!(!lane.follow(4));
}

#[test]
fn a_held_volume_key_travels_by_absolute_writes() {
    let device = receiver();
    let mut lane = lane_at(-300);
    match lane.take(request("volume-up", true), 0, 7, Some(&device)) {
        Admission::Run { action, card, .. } => {
            let target = -300 + HOLD_UP_TENTHS;
            assert_eq!(action.command, format!("set-volume-db:{target}"));
            assert_eq!(lane.level, Some(target));
            assert_eq!(card.unwrap().text, VolumeText::Decibels { tenths: target });
            // What the lane asked for is what is written.
            assert!(matches!(
                execute_with_input(true, Some(&device), &action.command, false),
                Plan::SetVolume { tenths } if tenths == target
            ));
        }
        Admission::Stale => panic!("a fresh repeat is sent"),
    }
    // A tap is the receiver's own step, and stays the command that it is.
    let mut lane = lane_at(-300);
    match lane.take(request("volume-down", false), 0, 7, Some(&device)) {
        Admission::Run { action, .. } => {
            assert_eq!(action.command, "volume-down");
            assert_eq!(lane.level, Some(-305));
        }
        Admission::Stale => panic!("a fresh press is sent"),
    }
    assert!(level_written(ActionReply::Taken).unwrap().settle);
    assert!(matches!(level_written(ActionReply::Other), Err(Reason::InvalidResponse)));
}

#[test]
fn the_level_is_read_once_the_hold_is_over() {
    let device = receiver();
    let mut lane = lane_at(-300);
    let settle = match lane.take(request("volume-up", true), 0, 7, Some(&device)) {
        Admission::Run { settle, .. } => settle,
        Admission::Stale => panic!("a fresh repeat is sent"),
    };
    assert!(lane.finish(level_written(ActionReply::Taken), settle).is_none());
    let owed = lane.quiet().unwrap();
    assert_eq!((owed.device.as_str(), owed.target.as_str()), ("avr", "Theater AVR"));
    assert!(lane.quiet().is_none());
    assert!(matches!(
        lane.settled(&owed, Some(reading_at(-285))),
        Some(Feedback::Volume(VolumeReading { text: VolumeText::Decibels { tenths: -285 }, .. }))
    ));
    assert_eq!(lane.level, Some(-285));
    // A read that gave nothing leaves the level as it was.
    assert!(lane.settled(&owed, None).is_none());
    assert_eq!(lane.level, Some(-285));
    lane.follow(9);
    assert_eq!((lane.level, lane.settle.is_none()), (None, true));
}

#[test]
fn a_result_reaches_the_card() {
    let mut lane = Lane::new(3);
    assert!(matches!(
        lane.finish(Err(Reason::DeviceRemoved), None),
        Some(Feedback::Error(Reason::DeviceRemoved))
    ));
    let reading = VolumeReading { target: text("AVR"), level: 40, text: VolumeText::Nothing };
    let volume = Outcome {
        volume: Some(reading),
        notice: None,
        settle: false,
        observed_db: Some(-200),
    };
    // Only a packaged device's level is remembered.
    assert!(matches!(lane.finish(Ok(volume), None), Some(Feedback::Volume(_))));
    assert_eq!(lane.level, None);
    let notice = Outcome {
        volume: None,
        notice: Some(Notice { target: text("AVR"), value: PowerValue::Off }),
        settle: false,
        observed_db: None,
    };
    assert!(matches!(lane.finish(Ok(notice), None), Some(Feedback::Notice(_))));
}
