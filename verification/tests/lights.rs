use couch_gui::commands::{PluginCode, PluginFailure};
use couch_gui::connections::{ha, ha_assist, ids, split, toggled, valid, Client, Fleet};
use couch_gui::device_state::{
    brightness_step, cover_description, cover_row, cover_step, description, light_row, Climate,
    Cover, DeviceState, Light,
};
use couch_gui::light_screen::{
    has_controls, hint, kelvin, kelvin_text, mirek_position, mirek_step, view_of, Declared,
    LightView,
};
use couch_gui::light_work::{
    fill_states, home_assistant_light, ir_check, list_needs, package_request, perform,
    write_plugin_row, write_timeout, Adjustment, Answer, CoverButton, LightEvent, LightStage, LightStep, LightWork,
    PackageWork, Reply, Round, RowPlan, WriteStage, WriteStep, STATUS_TIMEOUT_MS,
};
use couch_gui::lights::{
    activity_rows, configured, configured_in, device_at, device_row_detail, ha_domain,
    needs_package, opens_screen, queue_level, requeue_level, row_of_device, row_opens_a_screen,
    toggle_command, tv_connection, Entry, PluginRow,
};
use couch_gui::model::{
    Activity, ChildComponent, ChildSnapshot, Config, Connection, CoverState, CoverTraits, Device,
    Icon, Integration, LightState, LightTraits, Provider, Room, RowKey, RowKeys, Scene,
    TypedAction,
};
use couch_gui::state_cache::StateCache;
use couch_gui::volume::PluginStatus;
use std::collections::VecDeque;

#[allow(dead_code)]
fn text(s: &str) -> String {
    s.to_string()
}

#[allow(dead_code)]
fn no_keys() -> RowKeys {
    let none = RowKey { supported: false, repeats: false };
    RowKeys {
        volume_up: none,
        volume_down: none,
        mute: none,
        toggle: false,
        power_on: false,
        power_off: false,
        power_repeats: false,
    }
}

#[allow(dead_code)]
fn bare_device(id: &str, name: &str) -> Device {
    Device {
        id: text(id),
        name: text(name),
        icon: Icon::Other(0),
        connection: None,
        integration: None,
        network: None,
        identity: None,
        component: None,
        ir: false,
        bluetooth: None,
        can_toggle: false,
        player: false,
        has_screen: false,
        keys: no_keys(),
    }
}

#[allow(dead_code)]
fn room_of(id: &str, name: &str, devices: Vec<Device>) -> Room {
    Room {
        id: text(id),
        name: text(name),
        icon: Icon::Other(0),
        summary: String::new(),
        detail: String::new(),
        devices,
    }
}

#[allow(dead_code)]
fn empty_config() -> Config {
    Config {
        areas: vec![],
        connections: vec![],
        rooms: vec![],
        activities: vec![],
        scenes: vec![],
    }
}

fn connection(id: &str, provider: Provider) -> Connection {
    Connection { id: text(id), name: text(id), provider }
}

fn device_on(id: &str, name: &str, connection: &str, make: impl Fn() -> Integration) -> Device {
    let mut d = bare_device(id, name);
    d.connection = Some(text(connection));
    d.integration = Some(make());
    d.network = Some(make());
    d
}

fn legacy() -> Integration {
    Integration::Legacy { needs_package: text("Needs the Denon package") }
}

fn hue(id: &str, name: &str, light: &str) -> Device {
    let mut d = bare_device(id, name);
    d.integration = Some(Integration::Hue { light_id: text(light) });
    d
}

fn row_ids(entries: &[Entry]) -> Vec<&str> {
    entries.iter().map(|e| e.id.as_str()).collect()
}

#[test]
fn a_receiver_waiting_for_its_package_says_so_instead_of_opening_anything() {
    let mut config = empty_config();
    config.connections =
        vec![connection("receiver", Provider::Other), connection("tv", Provider::AppleTv)];
    let mut inline = bare_device("inline", "Old AVR");
    inline.integration = Some(legacy());
    inline.network = Some(legacy());
    config.rooms.push(room_of(
        "r",
        "Room",
        vec![
            device_on("avr", "Theater AVR", "receiver", legacy),
            inline,
            device_on("tv", "TV", "tv", || Integration::AppleTv),
        ],
    ));
    assert_eq!(needs_package(&config, "avr").as_deref(), Some("Needs the Denon package"));
    assert_eq!(needs_package(&config, "inline").as_deref(), Some("Needs the Denon package"));
    // The row says it before anyone presses OK.
    assert_eq!(device_row_detail(Some(&config), "device:avr"), "Needs the Denon package");
    assert_eq!(device_row_detail(Some(&config), "device:tv"), "Press OK for controls");
    assert_eq!(device_row_detail(None, "device:avr"), "Press OK for controls");
    assert_eq!(needs_package(&config, "tv"), None);
    assert_eq!(needs_package(&config, "missing"), None);
    // It still has a row, and no screen of its own to open.
    let entries = configured_in(&config, "r").unwrap();
    assert!(entries.iter().any(|e| e.id == "device:avr"));
    assert_eq!(
        entries
            .iter()
            .map(|e| (e.id.as_str(), row_opens_a_screen(Some(&config), e)))
            .collect::<Vec<_>>(),
        [("device:avr", false), ("device:inline", false), ("device:tv", true)]
    );
    assert_eq!(tv_connection(&config, "avr"), None);
}

#[test]
fn sonos_rows_are_the_only_media_rows() {
    let mut config = empty_config();
    config.connections =
        vec![connection("s", Provider::Sonos), connection("tv", Provider::AppleTv)];
    config.rooms.push(room_of(
        "r",
        "Room",
        vec![
            device_on("speaker", "Speaker", "s", || Integration::Sonos {
                host: text("192.0.2.9"),
            }),
            device_on("tv", "TV", "tv", || Integration::AppleTv),
            hue("lamp", "Lamp", "1"),
        ],
    ));
    let entries = configured_in(&config, "r").unwrap();
    assert_eq!(
        entries.iter().map(|e| (e.id.as_str(), e.media)).collect::<Vec<_>>(),
        [("device:speaker", true), ("device:tv", false), ("hue:1", false)]
    );
}

#[test]
fn activities_are_pinned_above_the_devices_and_rows_still_find_their_device() {
    let mut config = empty_config();
    config.rooms.push(room_of("r", "Room", vec![hue("lamp", "Lamp", "1"), bare_device("tv", "TV")]));
    let activity = |id: &str, name: &str, room: &str, glyph, source: Option<&str>| Activity {
        id: text(id),
        name: text(name),
        room: text(room),
        source: source.map(text),
        glyph,
        buttons: vec![],
        pages: vec![],
    };
    config.activities = vec![
        activity("watch", "Watch", "r", 1, Some("tv")),
        activity("elsewhere", "Elsewhere", "other", 0, None),
    ];
    let entries = configured_in(&config, "r").unwrap();
    assert_eq!(row_ids(&entries), ["activity:watch", "hue:1", "device:tv"]);
    // The pinned row carries what the area page's strip shows for the activity:
    // its glyph and "source · room"; devices carry nothing.
    assert_eq!(entries[0].activity, Some((1, text("TV · Room"))));
    assert!(entries[1].activity.is_none() && entries[2].activity.is_none());
    assert_eq!(activity_rows(&config, "r"), 1);
    assert!(device_at(&config, "r", 0).is_none());
    assert_eq!(device_at(&config, "r", 1).map(|d| d.id.as_str()), Some("lamp"));
    assert_eq!(device_at(&config, "r", 2).map(|d| d.id.as_str()), Some("tv"));
    assert!(device_at(&config, "r", 3).is_none());
    assert_eq!(row_of_device(&config, "r", "tv"), Some(2));
    assert_eq!(row_of_device(&config, "r", "ghost"), None);
}

#[test]
fn selected_ir_device_keeps_per_device_target() {
    let mut config = empty_config();
    config.connections = vec![connection("ir", Provider::Other)];
    let tv = |id: &str, name: &str| {
        let mut d = bare_device(id, name);
        d.connection = Some(text("ir"));
        d.integration = Some(Integration::Other);
        d.ir = true;
        d
    };
    config.rooms.push(room_of("r", "Room", vec![tv("tv-a", "A"), tv("tv-b", "B")]));
    assert_eq!(tv_connection(&config, "tv-a").as_deref(), Some("ir:tv-a"));
    assert_eq!(tv_connection(&config, "tv-b").as_deref(), Some("ir:tv-b"));
}

fn two_televisions(provider: Provider, make: impl Fn() -> Integration) -> Config {
    let mut config = empty_config();
    config.connections = vec![connection("first", provider), connection("second", provider)];
    config.rooms.push(room_of("office", "Office", vec![device_on("tv", "TV", "second", make)]));
    config
}

#[test]
fn selected_apple_tv_uses_its_own_connection() {
    let config = two_televisions(Provider::AppleTv, || Integration::AppleTv);
    assert_eq!(tv_connection(&config, "tv").as_deref(), Some("second"));
}

#[test]
fn selected_android_tv_uses_its_own_connection() {
    let mut config = two_televisions(Provider::AndroidTv, || Integration::AndroidTv);
    assert_eq!(tv_connection(&config, "tv").as_deref(), Some("second"));
    assert_eq!(tv_connection(&config, "missing"), None);
    // Without its connection the device's integration cannot be filled in.
    config.connections.pop();
    config.rooms[0].devices[0].integration = None;
    config.rooms[0].devices[0].network = None;
    assert_eq!(tv_connection(&config, "tv"), None);
}

fn test_light() -> Light {
    Light {
        entity_id: text("light.test"),
        name: text("Test"),
        on: Some(true),
        brightness_percent: Some(50),
        dimmable: true,
        mirek: None,
        mirek_range: None,
    }
}

#[test]
fn brightness_steps_use_pending_targets_clamp_and_reject_unsupported_lights() {
    let mut light = test_light();
    assert_eq!(brightness_step(&light, None, 5).unwrap(), 55);
    assert_eq!(brightness_step(&light, Some(55), 5).unwrap(), 60);
    assert_eq!(brightness_step(&light, Some(98), 5).unwrap(), 100);
    assert_eq!(brightness_step(&light, Some(2), -5).unwrap(), 0);
    light.on = Some(false);
    assert_eq!(brightness_step(&light, None, 5).unwrap(), 5);
    light.on = None;
    assert!(brightness_step(&light, Some(50), 5).is_err());
    light.on = Some(true);
    light.dimmable = false;
    assert!(brightness_step(&light, None, 5).is_err());
    light.dimmable = true;
    light.brightness_percent = None;
    assert!(brightness_step(&light, None, 5).is_err());
}

#[test]
fn rapid_dimming_keeps_latest_target_without_dropping_other_lights() {
    let mut queue = VecDeque::new();
    queue_level(&mut queue, text("one"), 55);
    queue_level(&mut queue, text("two"), 25);
    queue_level(&mut queue, text("one"), 60);
    queue_level(&mut queue, text("one"), 65);
    assert_eq!(
        queue.into_iter().collect::<Vec<_>>(),
        vec![(text("one"), 65), (text("two"), 25)]
    );
}

#[test]
fn toggle_uses_live_state_and_rejects_unavailable() {
    let mut state = test_light();
    state.on = Some(false);
    assert!(toggle_command(&state).unwrap());
    state.on = Some(true);
    assert!(!toggle_command(&state).unwrap());
    state.on = None;
    assert!(toggle_command(&state).is_err());
    assert!(toggled(None).is_err());
}

fn office_blind() -> Cover {
    Cover {
        entity_id: text("cover.office"),
        name: text("Office"),
        state: Some(text("open")),
        position_percent: Some(50),
        can_open: true,
        can_close: true,
        can_set_position: true,
        can_stop: true,
    }
}

#[test]
fn blind_steps_use_latest_target_without_inventing_unknown_position() {
    let mut cover = office_blind();
    assert_eq!(cover_step(&cover, None, 5).unwrap(), 55);
    assert_eq!(cover_step(&cover, Some(55), 5).unwrap(), 60);
    assert_eq!(cover_step(&cover, Some(98), 5).unwrap(), 100);
    assert_eq!(cover_step(&cover, Some(2), -5).unwrap(), 0);
    cover.position_percent = None;
    assert!(cover_step(&cover, None, 5).is_err());
    cover.state = None;
    assert!(cover_step(&cover, Some(50), 5).is_err());
    cover.state = Some(text("open"));
    cover.can_set_position = false;
    assert!(cover_step(&cover, Some(50), 5).is_err());
}

#[test]
fn blind_status_describes_motion_and_open_percentage() {
    let mut cover = office_blind();
    assert_eq!(cover_description(&cover), "Open · 50% open");
    cover.state = Some(text("closing"));
    assert_eq!(cover_description(&cover), "Closing · 50% open");
    cover.state = None;
    assert_eq!(cover_description(&cover), "Unavailable");
}

#[test]
fn scoped_ha_entities_keep_domains_and_separate_state_caches() {
    assert_eq!(ha_domain("upstairs/climate.office"), "climate");
    assert_eq!(ha_domain("cover.office"), "cover");
    let mut cache = StateCache::new();
    let mut a = DeviceState::Cover(office_blind());
    a.set_id(text("a/cover.office"));
    let mut b = DeviceState::Cover(office_blind());
    b.set_id(text("b/cover.office"));
    cache.put(a, 0);
    cache.put(b, 0);
    assert!(cache.get("a/cover.office", 0).is_some());
    assert!(cache.get("b/cover.office", 0).is_some());
    assert!(cache.get("cover.office", 0).is_none());
}

fn child(
    id: &str,
    name: &str,
    connection: &str,
    resource: &str,
    component: ChildComponent,
    snapshot: ChildSnapshot,
) -> Device {
    let mut d = device_on(id, name, connection, || Integration::Plugin {
        connection_id: text(connection),
        resource_id: text(resource),
        child: Some(snapshot),
        actions: vec![],
    });
    d.component = Some(component);
    d
}

const NOTHING: ChildSnapshot = ChildSnapshot { light: None, cover: None, climate: false };

fn light_child(mirek: Option<(u16, u16)>) -> ChildSnapshot {
    ChildSnapshot {
        light: Some(LightTraits { dimmable: true, mirek, color: false }),
        ..NOTHING
    }
}

/// A bridge that offers children, and a receiver that is a connection of its
/// own: the two shapes that a packaged connection has.
fn packaged() -> Config {
    let mut config = empty_config();
    config.connections =
        vec![connection("bridge", Provider::Plugin), connection("receiver", Provider::Plugin)];
    let blind = ChildSnapshot {
        cover: Some(CoverTraits { position: true, stop: true }),
        ..NOTHING
    };
    config.rooms.push(room_of(
        "living-room",
        "Living room",
        vec![
            child(
                "desk",
                "Desk lamp",
                "bridge",
                "lamp/1",
                ChildComponent::Light,
                light_child(Some((153, 500))),
            ),
            child(
                "reading",
                "Reading lamp",
                "bridge",
                "lamp/2",
                ChildComponent::Light,
                light_child(None),
            ),
            child("blind", "Blind", "bridge", "cover/1", ChildComponent::Cover, blind),
            child(
                "heat",
                "Heating",
                "bridge",
                "climate/1",
                ChildComponent::Climate,
                ChildSnapshot { climate: true, ..NOTHING },
            ),
            device_on("avr", "Theater AVR", "receiver", || Integration::Plugin {
                connection_id: text("receiver"),
                resource_id: String::new(),
                child: None,
                actions: vec![],
            }),
        ],
    ));
    config.scenes.push(Scene {
        id: text("relax"),
        name: text("Relax"),
        rooms: vec![text("living-room")],
    });
    config
}

const ROWS: [&str; 5] = [
    "plugin:bridge/lamp/1",
    "plugin:bridge/lamp/2",
    "plugin:bridge/cover/1",
    "device:heat",
    "device:avr",
];

fn living_room() -> Vec<Entry> {
    configured_in(&packaged(), "living-room").unwrap()
}

fn lamp() -> PluginRow {
    living_room().remove(0).plugin.unwrap()
}

fn blind() -> PluginRow {
    living_room().remove(2).plugin.unwrap()
}

#[test]
fn packaged_lights_and_blinds_are_room_rows_and_nothing_else_moves() {
    let config = packaged();
    let entries = configured_in(&config, "living-room").unwrap();
    assert_eq!(row_ids(&entries), ROWS);
    // The two lamps and the blind carry what it takes to drive them; the
    // thermostat and the receiver carry nothing.
    let row = |i: usize| {
        entries[i].plugin.as_ref().map(|r| (r.connection.as_str(), r.resource.as_str(), r.cover))
    };
    assert_eq!(row(0), Some(("bridge", "lamp/1", false)));
    assert_eq!(row(2), Some(("bridge", "cover/1", true)));
    assert!(row(3).is_none() && row(4).is_none());
    // A lamp is drawn as a light row, never as a device with a screen.
    assert!(entries[0].state.is_none() && !entries[0].hue && !entries[0].matter);
    // Nothing here opens the packaged control screen but the thermostat and the
    // receiver.
    assert_eq!(tv_connection(&config, "desk"), None);
    assert_eq!(tv_connection(&config, "blind"), None);
    assert_eq!(tv_connection(&config, "heat").as_deref(), Some("plugin:heat"));
    assert_eq!(tv_connection(&config, "avr").as_deref(), Some("plugin:avr"));
    // A scene is listed by its rooms alone.
    assert_eq!(
        config.scenes.iter().filter(|s| s.rooms.contains(&text("living-room"))).count(),
        1
    );
}

#[test]
fn a_child_whose_kind_has_gone_keeps_the_row_its_own_traits_describe() {
    let mut config = packaged();
    for device in &mut config.rooms[0].devices {
        device.component = None;
    }
    let entries = configured_in(&config, "living-room").unwrap();
    assert_eq!(row_ids(&entries), ROWS);
    assert!(entries[2].plugin.as_ref().is_some_and(|r| r.cover));
    assert_eq!(tv_connection(&config, "desk"), None);
}

fn lit(on: Option<bool>, brightness: Option<u8>, mirek: Option<u16>) -> LightState {
    LightState { on, brightness, mirek }
}

#[test]
fn a_reading_never_turns_an_unknown_into_an_off() {
    let dimmable = LightTraits { dimmable: true, mirek: Some((153, 500)), color: false };
    let plug = LightTraits { dimmable: false, mirek: None, color: false };
    for (traits, state, on, percent, dims) in [
        (Some(&dimmable), lit(Some(true), Some(40), None), Some(true), Some(40), true),
        (Some(&dimmable), lit(Some(false), Some(40), None), Some(false), Some(40), true),
        (Some(&dimmable), lit(None, None, None), None, None, true),
        (Some(&plug), lit(Some(true), None, None), Some(true), None, false),
        (None, lit(Some(true), None, None), Some(true), None, false),
    ] {
        let light = light_row("Desk", traits, &state);
        assert_eq!(
            (light.on, light.brightness_percent, light.dimmable),
            (on, percent, dims),
            "{state:?}"
        );
    }
    // Unknown reads as "Unavailable", and the slider refuses to invent a level.
    let unknown = light_row("Desk", Some(&dimmable), &lit(None, None, None));
    assert_eq!(description(&unknown), "Unavailable");
    assert!(brightness_step(&unknown, None, 5).is_err());
    // An off lamp keeps the level it would return to, and dims from zero.
    let off = light_row("Desk", Some(&dimmable), &lit(Some(false), Some(40), None));
    assert_eq!(description(&off), "Off");
    assert_eq!(brightness_step(&off, None, 5).unwrap(), 5);
    // A lamp that cannot be dimmed says so rather than sending a level.
    let plain = light_row("Plug", Some(&plug), &lit(Some(true), None, None));
    assert_eq!(description(&plain), "On");
    assert!(brightness_step(&plain, None, 5).is_err());
    let full = CoverTraits { position: true, stop: true };
    let none = CoverTraits { position: false, stop: false };
    let at = |open, position| CoverState { open, position };
    for (traits, state, shown, steps) in [
        (Some(&full), at(Some(true), Some(60)), "Open · 60% open", true),
        (Some(&full), at(Some(false), Some(0)), "Closed · 0% open", true),
        (Some(&full), at(None, None), "Unavailable", false),
        (Some(&none), at(Some(true), Some(60)), "Open · 60% open", false),
        (None, at(Some(true), None), "Open", false),
    ] {
        let cover = cover_row("Blind", traits, &state);
        assert_eq!(cover_description(&cover), shown, "{state:?}");
        assert_eq!(cover_step(&cover, None, 5).is_ok(), steps, "{state:?}");
    }
}

fn silent() -> PluginStatus {
    PluginStatus { on: None, muted: None, volume: None, volume_db: None, light: None, cover: None }
}

fn light_status(on: bool, brightness: Option<u8>) -> PluginStatus {
    PluginStatus { light: Some(lit(Some(on), brightness, None)), ..silent() }
}

#[test]
fn a_status_without_this_childs_state_is_not_a_reading() {
    let covered =
        PluginStatus { cover: Some(CoverState { open: Some(true), position: None }), ..silent() };
    assert!(lamp().state("Desk", &silent()).is_none());
    assert!(lamp().state("Desk", &covered).is_none());
    assert!(blind().state("Blind", &light_status(true, None)).is_none());
    assert!(matches!(
        lamp().state("Desk", &light_status(true, None)),
        Some(DeviceState::Light(_))
    ));
    assert!(matches!(blind().state("Blind", &covered), Some(DeviceState::Cover(_))));
}

fn failed(code: PluginCode) -> Reply {
    Reply::Failed(PluginFailure {
        code,
        sentence: text("The device refused the request"),
        reason: None,
    })
}

/// Read every packaged row, and say which were asked.
fn read_rows(
    entries: &mut Vec<Entry>,
    mut answer: impl FnMut(&str) -> Reply,
) -> Vec<(String, String)> {
    let mut round = Round::new();
    let mut asked = vec![];
    while let Some(row) = round.next(entries) {
        let plugin = entries[row].plugin.as_ref().unwrap().copy();
        let reply = answer(&plugin.resource);
        asked.push((plugin.connection, plugin.resource));
        round.answer(entries, reply);
    }
    asked
}

#[test]
fn a_round_reads_each_row_once_and_gives_up_on_a_silent_connection() {
    let mut config = packaged();
    // A second bridge, so one going quiet cannot silence the other.
    config.connections.push(connection("hall", Provider::Plugin));
    config.rooms[0].devices.push(child(
        "hall-lamp",
        "Hall lamp",
        "hall",
        "lamp/9",
        ChildComponent::Light,
        light_child(Some((153, 500))),
    ));
    let mut entries = configured_in(&config, "living-room").unwrap();
    let asked = read_rows(&mut entries, |resource| match resource {
        // The first lamp answers; the blind would, but the bridge has already
        // gone quiet by then.
        "lamp/1" => Reply::Status(light_status(true, Some(40))),
        "lamp/2" => failed(PluginCode::Timeout),
        "lamp/9" => Reply::Status(light_status(false, Some(10))),
        other => panic!("nothing else may be asked: {other}"),
    });
    let pair = |connection: &str, resource: &str| (text(connection), text(resource));
    assert_eq!(
        asked,
        [pair("bridge", "lamp/1"), pair("bridge", "lamp/2"), pair("hall", "lamp/9")]
    );
    assert_eq!(STATUS_TIMEOUT_MS, 1500);
    // The rows are all still there; those that went unasked have no reading.
    assert_eq!(
        entries
            .iter()
            .map(|e| (e.id.as_str(), e.state.as_ref().map(|s| s.description())))
            .collect::<Vec<_>>(),
        [
            ("plugin:bridge/lamp/1", Some(text("On · 40%"))),
            ("plugin:bridge/lamp/2", None),
            ("plugin:bridge/cover/1", None),
            ("device:heat", None),
            ("device:avr", None),
            ("plugin:hall/lamp/9", Some(text("Off"))),
        ]
    );
    // The reading is filed under the row's own id.
    assert_eq!(entries[0].state.as_ref().unwrap().id(), "plugin:bridge/lamp/1");
}

#[test]
fn a_child_the_package_forgot_is_unavailable_and_never_removed() {
    let mut entries = living_room();
    let asked = read_rows(&mut entries, |_| failed(PluginCode::Unsupported));
    // Unsupported is not a connection failure: every row is still asked.
    assert_eq!(asked.len(), 3);
    assert_eq!(entries.len(), 5);
    assert!(entries.iter().all(|e| e.state.is_none()));
}

#[test]
fn a_status_read_that_answers_unpaired_marks_only_that_row() {
    let mut entries = living_room();
    let asked = read_rows(&mut entries, |resource| match resource {
        "lamp/2" => failed(PluginCode::Unpaired),
        _ => failed(PluginCode::Unsupported),
    });
    assert_eq!(asked.len(), 3);
    assert!(entries.iter().all(|e| e.state.is_none()));
    assert_eq!(
        entries.iter().map(|e| (e.id.as_str(), e.unpaired)).collect::<Vec<_>>(),
        [
            ("plugin:bridge/lamp/1", false),
            ("plugin:bridge/lamp/2", true),
            ("plugin:bridge/cover/1", false),
            ("device:heat", false),
            ("device:avr", false),
        ]
    );
}

#[test]
fn a_level_uses_the_state_the_write_acknowledged() {
    let row = lamp();
    let expected = TypedAction::SetLight { brightness: Some(40), mirek: None };
    assert_eq!(row.level(40), expected);
    match package_request(&row, Adjustment::Brightness(40)) {
        PackageWork::Action(action) => assert_eq!(action, expected),
        other => panic!("{other:?}"),
    }
    let reply = Reply::Status(light_status(true, Some(40)));
    match write_plugin_row(&row, "Desk lamp", WriteStage::Writing, reply) {
        WriteStep::Done(Ok(Answer::State(state))) => {
            assert_eq!(state.id(), "plugin:bridge/lamp/1");
            assert_eq!(state.description(), "On · 40%");
        }
        other => panic!("{other:?}"),
    }
    // A blind's level is the other typed action, at its own child.
    assert_eq!(blind().level(40), TypedAction::SetCover { position: 40 });
    // And OK on the row is the child's own toggle, never a read first.
    assert!(matches!(package_request(&row, Adjustment::Toggle), PackageWork::Toggle));
}

#[test]
fn a_bare_ok_is_followed_by_one_read() {
    let row = lamp();
    assert!(matches!(
        write_plugin_row(&row, "Desk lamp", WriteStage::Writing, Reply::Taken),
        WriteStep::AskStatus
    ));
    let reply = Reply::Status(light_status(true, Some(80)));
    match write_plugin_row(&row, "Desk lamp", WriteStage::Reading, reply) {
        WriteStep::Done(Ok(Answer::State(state))) => {
            assert_eq!(state.description(), "On · 80%")
        }
        other => panic!("{other:?}"),
    }
    // A reply that says nothing about this child is reported, not shown as an
    // off lamp.
    let quiet = Reply::Status(PluginStatus { on: Some(true), ..silent() });
    match write_plugin_row(&row, "Desk lamp", WriteStage::Writing, quiet) {
        WriteStep::Done(Err(why)) => {
            assert_eq!(why.text(""), "The integration did not report this device")
        }
        other => panic!("{other:?}"),
    }
}

#[test]
fn a_busy_connection_keeps_only_the_latest_target_and_says_nothing() {
    let row = lamp();
    assert!(matches!(
        write_plugin_row(&row, "Desk lamp", WriteStage::Writing, failed(PluginCode::Busy)),
        WriteStep::Done(Ok(Answer::Busy))
    ));
    // The level that was out goes back to the head of the queue, ahead of
    // another light's, and in front of nothing newer for itself.
    let mut queue = VecDeque::new();
    queue_level(&mut queue, text("two"), 25);
    requeue_level(&mut queue, text("one"), 40);
    assert_eq!(
        queue.iter().cloned().collect::<Vec<_>>(),
        [(text("one"), 40), (text("two"), 25)]
    );
    // A newer level for the same row is already waiting: it wins.
    requeue_level(&mut queue, text("one"), 10);
    assert_eq!(
        queue.into_iter().collect::<Vec<_>>(),
        [(text("one"), 40), (text("two"), 25)]
    );
    // A refusal that is not busy is still a refusal.
    match write_plugin_row(&row, "Desk lamp", WriteStage::Writing, failed(PluginCode::Rejected)) {
        WriteStep::Done(Err(why)) => assert_eq!(why.text(""), "The device refused the request"),
        other => panic!("{other:?}"),
    }
}

#[test]
fn a_child_name_is_never_read_as_a_home_assistant_domain() {
    assert_eq!(ha_domain("plugin:bridge/climate.living"), "");
    assert_eq!(ha_domain("plugin:bridge/cover.blind"), "");
    assert_eq!(ha_domain("bridge/climate.living"), "climate");
    assert_eq!(ha_domain("cover.office"), "cover");
}

#[test]
fn ok_opens_a_screen_only_where_there_is_something_to_adjust() {
    let mut entries = living_room();
    // A packaged child says what it can do in its own declaration, so it is
    // decided before any reading has arrived.
    assert_eq!(
        entries.iter().map(|e| (e.id.as_str(), opens_screen(e))).collect::<Vec<_>>(),
        [
            ("plugin:bridge/lamp/1", true),
            ("plugin:bridge/lamp/2", true),
            ("plugin:bridge/cover/1", true),
            ("device:heat", false),
            ("device:avr", false),
        ]
    );
    // A child that only switches keeps OK as a toggle.
    entries[0].plugin.as_mut().unwrap().snapshot.light =
        Some(LightTraits { dimmable: false, mirek: None, color: false });
    assert!(!opens_screen(&entries[0]));
    entries[2].plugin.as_mut().unwrap().snapshot.cover =
        Some(CoverTraits { position: false, stop: false });
    assert!(!opens_screen(&entries[2]));
    // Everything else is decided by the reading. A row that has not answered
    // yet keeps the toggle it has always had.
    let mut hue = Entry {
        icon: Icon::Lamp,
        name: text("Hue lamp"),
        id: text("hue:1"),
        state: None,
        hue: true,
        matter: false,
        plugin: None,
        media: false,
        activity: None,
        unpaired: false,
    };
    assert!(!opens_screen(&hue));
    let reading = |dimmable, mirek_range| {
        Some(DeviceState::Light(Light {
            entity_id: text("hue:1"),
            name: text("Hue lamp"),
            on: Some(true),
            brightness_percent: Some(40),
            dimmable,
            mirek: None,
            mirek_range,
        }))
    };
    hue.state = reading(true, None);
    assert!(opens_screen(&hue));
    hue.state = reading(false, Some((153, 500)));
    assert!(opens_screen(&hue));
    hue.state = reading(false, None);
    assert!(!opens_screen(&hue));
}

#[test]
fn a_colour_temperature_keeps_the_latest_target_and_a_busy_package_says_nothing() {
    let mut queue: VecDeque<(String, u16)> = VecDeque::new();
    queue_level(&mut queue, text("one"), 300);
    queue_level(&mut queue, text("two"), 250);
    queue_level(&mut queue, text("one"), 280);
    assert_eq!(
        queue.iter().cloned().collect::<Vec<_>>(),
        [(text("one"), 280), (text("two"), 250)]
    );
    // The one that came back goes in front, and loses to anything newer for the
    // same row that is already waiting.
    requeue_level(&mut queue, text("three"), 400);
    requeue_level(&mut queue, text("one"), 999);
    assert_eq!(
        queue.into_iter().collect::<Vec<_>>(),
        [(text("three"), 400), (text("one"), 280), (text("two"), 250)]
    );
    // The write itself: the typed action that the child's kind declares, at that
    // child, and a busy connection is not a failure.
    let row = lamp();
    match package_request(&row, Adjustment::Mirek(336)) {
        PackageWork::Action(action) => {
            assert_eq!(action, TypedAction::SetLight { brightness: None, mirek: Some(336) })
        }
        other => panic!("{other:?}"),
    }
    assert!(matches!(
        write_plugin_row(&row, "Desk lamp", WriteStage::Writing, failed(PluginCode::Busy)),
        WriteStep::Done(Ok(Answer::Busy))
    ));
    // And the reading that comes back carries the colour temperature that the
    // child declared a range for, and nothing it did not.
    let traits = LightTraits { dimmable: true, mirek: Some((153, 500)), color: false };
    let state = lit(Some(true), Some(40), Some(370));
    let read = light_row("Desk lamp", Some(&traits), &state);
    assert_eq!((read.mirek, read.mirek_range), (Some(370), Some((153, 500))));
    // A colour temperature outside the declared range is not a reading of it.
    let odd = lit(Some(true), None, Some(600));
    assert_eq!(light_row("Desk lamp", Some(&traits), &odd).mirek, None);
    // A lamp that declared no range is never offered one.
    let plain = LightTraits { dimmable: true, mirek: None, color: false };
    let no_range = light_row("Desk lamp", Some(&plain), &state);
    assert_eq!((no_range.mirek, no_range.mirek_range), (None, None));
}

#[test]
fn navigation_cache_expires() {
    let mut c = StateCache::new();
    c.put(DeviceState::Light(test_light()), 10_000);
    assert!(c.get("light.test", 10_000).is_some());
    assert!(c.get("light.test", 16_000).is_none());
}

fn a_lamp(dimmable: bool, mirek_range: Option<(u16, u16)>) -> Light {
    Light {
        entity_id: text("light.desk"),
        name: text("Desk lamp"),
        on: Some(true),
        brightness_percent: Some(40),
        dimmable,
        mirek: mirek_range.map(|_| 370),
        mirek_range,
    }
}

fn a_blind(position: bool, stop: bool) -> Cover {
    Cover {
        entity_id: text("cover.blind"),
        name: text("Blind"),
        state: Some(text("open")),
        position_percent: Some(60),
        can_open: true,
        can_close: true,
        can_set_position: position,
        can_stop: stop,
    }
}

#[test]
fn only_a_device_with_something_to_adjust_gets_a_screen() {
    assert!(has_controls(&DeviceState::Light(a_lamp(true, None))));
    assert!(has_controls(&DeviceState::Light(a_lamp(false, Some((153, 500))))));
    assert!(!has_controls(&DeviceState::Light(a_lamp(false, None))));
    assert!(has_controls(&DeviceState::Cover(a_blind(true, false))));
    // A blind that cannot be positioned but can be stopped still has a screen
    // worth opening: its three buttons.
    assert!(has_controls(&DeviceState::Cover(a_blind(false, true))));
    assert!(!has_controls(&DeviceState::Cover(a_blind(false, false))));
}

/// A colour temperature in kelvin, before it is rounded to what is said.
fn kelvin_of(mirek: u16) -> u16 {
    (1_000_000 / u32::from(mirek)) as u16
}

#[test]
fn kelvin_is_rounded_to_something_a_person_would_say() {
    assert_eq!(kelvin(kelvin_of(370)), 2700);
    assert_eq!(kelvin(kelvin_of(153)), 6550);
    assert_eq!(kelvin(kelvin_of(500)), 2000);
    assert_eq!(kelvin(kelvin_of(250)), 4000);
}

#[test]
fn a_colour_step_crosses_the_range_in_about_twenty_presses() {
    let light = a_lamp(true, Some((153, 500)));
    // Seventeen mirek a press over a range of 347.
    assert_eq!(mirek_step(&light, None, 1).unwrap(), 353);
    assert_eq!(mirek_step(&light, None, -1).unwrap(), 387);
    // The latest target is what the next press moves from.
    assert_eq!(mirek_step(&light, Some(353), 1).unwrap(), 336);
    // Neither end can be walked past.
    assert_eq!(mirek_step(&light, Some(160), 1).unwrap(), 153);
    assert_eq!(mirek_step(&light, Some(495), -1).unwrap(), 500);
    // A narrow range still moves five mirek at a time rather than nothing.
    let narrow = a_lamp(true, Some((200, 260)));
    assert_eq!(mirek_step(&narrow, Some(230), 1).unwrap(), 225);
    // A light with no range refuses instead of inventing one.
    assert!(mirek_step(&a_lamp(true, None), None, 1).is_err());
    // A lamp that shows a colour has a range and no colour temperature. Either
    // key turns it to warm white, and the next press steps from there.
    let mut unread = a_lamp(true, Some((153, 500)));
    unread.mirek = None;
    assert_eq!(mirek_step(&unread, None, 1).unwrap(), 370);
    assert_eq!(mirek_step(&unread, None, -1).unwrap(), 370);
    assert_eq!(mirek_step(&unread, Some(370), 1).unwrap(), 353);
    // Warm white is still inside the lamp's own limits.
    let mut cool_only = a_lamp(true, Some((153, 300)));
    cool_only.mirek = None;
    assert_eq!(mirek_step(&cool_only, None, 1).unwrap(), 300);
    // A lamp that cannot be reached is still refused.
    unread.on = None;
    assert!(mirek_step(&unread, Some(300), 1).is_err());
}

fn kelvin_line(view: &LightView) -> String {
    kelvin_text(view.mirek.map(kelvin_of))
}

fn screen(
    name: &str,
    declared: Declared,
    state: Option<DeviceState>,
    level: Option<u8>,
    mirek: Option<u16>,
) -> LightView {
    view_of(name, "", declared, state.as_ref(), level, mirek)
}

#[test]
fn the_screen_repeats_the_rows_sentence_and_shows_its_controls() {
    let tuned = || Some(DeviceState::Light(a_lamp(true, Some((153, 500)))));
    let tunable = view_of(
        "Desk lamp",
        "Living room · Philips Hue",
        Declared::default(),
        tuned().as_ref(),
        None,
        None,
    );
    assert_eq!(tunable.state, "On · 40%");
    assert_eq!(tunable.level, "40%");
    assert!(tunable.level_known && tunable.adjustable && tunable.active);
    assert_eq!(tunable.level_label, "BRIGHTNESS");
    assert!(tunable.tunable && tunable.mirek_known);
    assert_eq!(kelvin_line(&tunable), "2700 K");
    // 370 of 153..500, measured from the warm end.
    assert_eq!(tunable.mirek_percent, 37);
    assert_eq!(tunable.detail, "");
    assert_eq!(tunable.hint, "Vol: brightness · Ch: warmth · Power: on/off");

    // A pending press moves the screen before the light has answered.
    let pressed = screen("Desk lamp", Declared::default(), tuned(), Some(45), Some(336));
    assert_eq!(pressed.level, "45%");
    assert_eq!(pressed.level_percent, 45);
    assert_eq!(kelvin_line(&pressed), "3000 K");
    assert_eq!(pressed.state, "On · 45%");
    assert!(pressed.active);

    // A lamp that only switches says so instead of offering a slider.
    let plug = Some(DeviceState::Light(a_lamp(false, None)));
    let plain = screen("Plug", Declared::default(), plug, None, None);
    assert_eq!(plain.level, "—");
    assert!(!plain.level_known && !plain.adjustable && !plain.tunable);
    assert_eq!(plain.detail, "This light has only on and off.");
    assert_eq!(plain.hint, "Vol: brightness · Power: on/off · Back: room");

    // Unavailable is unavailable: no level, no colour, no invented off.
    let mut gone = a_lamp(true, Some((153, 500)));
    gone.on = None;
    gone.brightness_percent = None;
    gone.mirek = None;
    let dark = screen("Desk lamp", Declared::default(), Some(DeviceState::Light(gone)), None, None);
    assert_eq!(dark.state, "Unavailable");
    assert_eq!(dark.level, "—");
    assert_eq!(kelvin_line(&dark), "—");
    assert!(!dark.active && !dark.adjustable && !dark.mirek_known);
    assert!(dark.tunable);
    assert_eq!(dark.hint, "Vol: brightness · Ch: warmth · Power: on/off");

    // And a row with no reading at all is the same picture.
    assert_eq!(
        screen("Desk lamp", Declared::default(), None, None, None).state,
        "Unavailable"
    );
    // A blind that has not answered is still drawn as a blind.
    let unread = screen(
        "Blind",
        Declared { cover: true, can_stop: true, ..Declared::default() },
        None,
        None,
        None,
    );
    assert!(unread.cover && unread.can_stop && !unread.tunable);
    assert_eq!(unread.level_label, "OPEN POSITION");
    assert_eq!(unread.hint, "Vol: position · Power: open/close · Back: room");
}

#[test]
fn the_state_line_follows_the_press_rather_than_the_last_reading() {
    let at = |level| {
        let lit = Some(DeviceState::Light(a_lamp(true, Some((153, 500)))));
        screen("Desk lamp", Declared::default(), lit, level, None)
    };
    // No press: the reading, exactly as the row shows it.
    assert_eq!(at(None).state, "On · 40%");
    assert_eq!(at(Some(55)).state, "On · 55%");
    // Writing zero turns a lamp off, and the line says so before the reading
    // confirms it, with the accent colour gone too.
    let dark = at(Some(0));
    assert_eq!(dark.state, "Off");
    assert!(!dark.active);

    // The other way round: a brightness written to a lamp that is off turns it
    // on.
    let mut resting = a_lamp(true, None);
    resting.on = Some(false);
    resting.brightness_percent = Some(0);
    let woken = screen(
        "Desk lamp",
        Declared::default(),
        Some(DeviceState::Light(resting.copy())),
        Some(5),
        None,
    );
    assert_eq!(woken.state, "On · 5%");
    assert!(woken.active);

    // A lamp that cannot dim has no target to believe in, and an unavailable
    // one is still unavailable whatever was pressed.
    let mut plain = resting;
    plain.dimmable = false;
    let off = Some(DeviceState::Light(plain.copy()));
    assert_eq!(screen("Plug", Declared::default(), off, Some(5), None).state, "Off");
    plain.on = None;
    let gone = Some(DeviceState::Light(plain));
    assert_eq!(screen("Plug", Declared::default(), gone, Some(5), None).state, "Unavailable");

    // A blind's line carries the position that the bar carries.
    let travelling = screen(
        "Blind",
        Declared { cover: true, ..Declared::default() },
        Some(DeviceState::Cover(a_blind(true, true))),
        Some(25),
        None,
    );
    assert_eq!(travelling.state, "Open · 25% open");
    assert_eq!(travelling.level, "25%");
}

#[test]
fn a_blind_is_the_same_screen_with_a_position_on_it() {
    let open = screen(
        "Blind",
        Declared { cover: true, can_stop: true, ..Declared::default() },
        Some(DeviceState::Cover(a_blind(true, true))),
        None,
        None,
    );
    assert_eq!(open.state, "Open · 60% open");
    assert_eq!(open.level_label, "OPEN POSITION");
    assert_eq!(open.level, "60%");
    assert!(open.cover && open.can_stop && open.adjustable && open.active);
    assert!(!open.tunable);
    assert_eq!(open.hint, "Vol: position · Power: open/close · Back: room");
    let simple = screen(
        "Blind",
        Declared { cover: true, ..Declared::default() },
        Some(DeviceState::Cover(a_blind(false, true))),
        None,
        None,
    );
    assert!(!simple.adjustable);
    assert_eq!(
        simple.detail,
        "This blind opens and closes, but cannot be sent to a position."
    );
}

#[test]
fn a_warmth_is_measured_from_its_warm_end() {
    assert_eq!(mirek_position((153, 500), 500), 0);
    assert_eq!(mirek_position((153, 500), 153), 100);
    assert_eq!(hint(false, true), "Vol: brightness · Ch: warmth · Power: on/off");
}

#[test]
fn a_connection_is_named_looked_up_and_kept() {
    assert_eq!(split("upstairs/light.x"), ("upstairs", "light.x"));
    assert_eq!(split("light.x"), ("", "light.x"));
    assert_ne!(
        couch_gui::connections::file("", "hue"),
        couch_gui::connections::file("h", "hue")
    );
    let mut config = packaged();
    config.connections.push(connection("a", Provider::HomeAssistant));
    assert!(valid(Some(&config), "a", Provider::HomeAssistant));
    assert!(!valid(Some(&config), "a", Provider::Hue));
    assert_eq!(ids(Some(&config), Provider::HomeAssistant), ["a"]);
    assert_eq!(ha(Some(&config), "a/light.x").unwrap(), ("a", "light.x"));
    assert!(ha(Some(&config), "b/light.x").is_err());
    assert_eq!(ha_assist(Some(&config)).unwrap(), "a");
    let mut fleet = Fleet::new();
    assert!(fleet.get(Some(&config), "a", Provider::Hue).is_err());
    assert!(matches!(fleet.get(Some(&config), "a", Provider::HomeAssistant), Ok(Client::ToOpen)));
    fleet.keep("a");
    assert!(matches!(fleet.get(Some(&config), "a", Provider::HomeAssistant), Ok(Client::Kept)));
    fleet.retain(&vec![]);
    assert!(fleet.open.is_empty());
}

#[test]
fn an_adjustment_goes_where_its_row_lives() {
    let entries = living_room();
    let id = text("plugin:bridge/cover/1");
    match perform(&entries, &id, Adjustment::Cover(CoverButton::Stop)) {
        RowPlan::Package { row, request, .. } => {
            assert_eq!(row.resource, "cover/1");
            assert!(matches!(request, PackageWork::Cover(CoverButton::Stop)));
        }
        plan => panic!("{plan:?}"),
    }
    assert!(matches!(
        perform(&entries, &text("gone"), Adjustment::Toggle),
        RowPlan::Fail(_)
    ));
    let needs = list_needs(&entries);
    assert!(!needs.hue && !needs.matter);
    let mut config = empty_config();
    config.rooms.push(room_of("r", "Room", vec![hue("lamp", "Lamp", "1")]));
    let mut entries = configured(Some(&config), "r").unwrap();
    assert!(list_needs(&entries).hue);
    let mut read = test_light();
    read.entity_id = text("1");
    fill_states(&mut entries, &vec![], &vec![DeviceState::Light(read)], &vec![]);
    assert_eq!(entries[0].state.as_ref().unwrap().description(), "On · 50%");
    assert!(configured(None, "r").is_err());
    assert!(configured(Some(&config), "attic").is_err());
}

#[test]
fn a_home_assistant_light_is_read_before_it_is_switched() {
    let entity = text("light.test");
    let begin = home_assistant_light(&entity, LightWork::Toggle, LightStage::Start, LightEvent::Begin);
    let stage = match begin {
        LightStep::Read { stage } => stage,
        step => panic!("{step:?}"),
    };
    let step =
        home_assistant_light(&entity, LightWork::Toggle, stage, LightEvent::Read(test_light()));
    assert!(matches!(step, LightStep::Power { on: false }));
    let step = home_assistant_light(
        &entity,
        LightWork::Toggle,
        LightStage::Sending,
        LightEvent::Failed(text("down")),
    );
    match step {
        LightStep::Done(Err(why)) => assert_eq!(why.text(""), "down"),
        step => panic!("{step:?}"),
    }
}

#[test]
fn infrared_from_a_row_needs_its_device_and_its_command() {
    let config = packaged();
    assert!(ir_check(&config, "living-room", "avr", true).is_ok());
    assert!(ir_check(&config, "living-room", "avr", false).is_err());
    assert!(ir_check(&config, "living-room", "gone", true).is_err());
    let climate = Climate {
        entity_id: text("climate.x"),
        available: false,
        hvac_mode: None,
        temperature_unit: text("°C"),
        current_temperature: None,
        target_temperature: None,
    };
    assert_eq!(DeviceState::Climate(climate).description(), "Unavailable");
}

#[test]
fn a_write_outlasts_the_packages_own_requests() {
    assert_eq!(write_timeout(5000), 6000);
    assert_eq!(write_timeout(u64::MAX), u64::MAX);
}
