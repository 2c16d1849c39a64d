use couch_gui::connections::{asked, ha_power, hue_states, matter_light, wanted_of, Power};
use couch_gui::device_state::{DeviceState, Light};
use couch_gui::home::{
    accent_tint, glyph, lost, project, read, room_power, room_state, Observed, Plan, Reading, RoomMonitor,
    RoomState, Source,
};
use couch_gui::model::{
    Config, Connection, Device, Icon, Integration, Provider, Room, RowKey, RowKeys, Screen,
};

#[allow(dead_code)]
fn text(s: &str) -> String {
    s.to_string()
}

#[allow(dead_code)]
fn no_keys() -> RowKeys {
    let none = RowKey { supported: false, repeats: false };
    RowKeys {
        volume_up: none,
        volume_down: none,
        mute: none,
        toggle: false,
        power_on: false,
        power_off: false,
        power_repeats: false,
    }
}

#[allow(dead_code)]
fn bare_device(id: &str, name: &str) -> Device {
    Device {
        id: text(id),
        name: text(name),
        icon: Icon::Other(0),
        connection: None,
        integration: None,
        network: None,
        identity: None,
        component: None,
        ir: false,
        bluetooth: None,
        can_toggle: false,
        player: false,
        has_screen: false,
        keys: no_keys(),
    }
}

#[allow(dead_code)]
fn room_of(id: &str, name: &str, devices: Vec<Device>) -> Room {
    Room {
        id: text(id),
        name: text(name),
        icon: Icon::Other(0),
        summary: String::new(),
        detail: String::new(),
        devices,
    }
}

#[allow(dead_code)]
fn empty_config() -> Config {
    Config {
        areas: vec![],
        connections: vec![],
        rooms: vec![],
        activities: vec![],
        scenes: vec![],
    }
}

#[test]
fn room_icons_distinguish_on_off_and_unknown_devices() {
    assert_eq!(room_power(&vec![Some(false), Some(false)]), 0);
    assert_eq!(room_power(&vec![Some(false), Some(true)]), 1);
    assert_eq!(room_power(&vec![None, Some(true)]), 1);
    assert_eq!(room_power(&vec![None, Some(false)]), -1);
    assert_eq!(room_power(&vec![None]), -1);
    assert_eq!(room_power(&vec![]), -1);
}

fn lit_room() -> Config {
    let mut config = empty_config();
    config.connections = vec![
        Connection { id: text("h"), name: text("Hue"), provider: Provider::Hue },
        Connection { id: text("a"), name: text("HA"), provider: Provider::HomeAssistant },
    ];
    let mut lamp = bare_device("l", "Lamp");
    lamp.connection = Some(text("h"));
    lamp.integration = Some(Integration::Hue { light_id: text("h/3") });
    let mut strip = bare_device("s", "Strip");
    strip.connection = Some(text("a"));
    strip.integration = Some(Integration::HomeAssistant { entity_id: text("a/light.strip") });
    config.rooms.push(room_of("r", "Room", vec![lamp, strip, bare_device("t", "TV")]));
    config
}

#[test]
fn the_state_plan_resolves_every_device_once_and_names_the_integrations() {
    let mut config = lit_room();
    let plan = Plan::build(&config);
    assert!(plan.has_hue);
    assert_eq!(plan.ha_ids, vec![text("a/light.strip")]);
    assert_eq!(plan.rooms.len(), 1);
    assert_eq!(plan.rooms[0].0, config.rooms[0].id);
    match plan.rooms[0].1.as_slice() {
        [Source::Hue(hue), Source::Ha(ha), Source::Unknown] => {
            assert_eq!((hue.as_str(), ha.as_str()), ("h/3", "a/light.strip"));
        }
        other => panic!("{other:?}"),
    }
    config.rooms[0].devices.clear();
    let plan = Plan::build(&config);
    assert!(!plan.has_hue && plan.ha_ids.is_empty());
}

fn on(bright: Option<u8>) -> Reading {
    Reading { on: Some(true), bright, lost: false }
}

fn off() -> Reading {
    Reading { on: Some(false), bright: Some(0), lost: false }
}

#[test]
fn the_status_column_counts_only_devices_that_answered() {
    // Two lights on out of three readable devices, one of them bright.
    let lit = room_state(&vec![on(Some(80)), on(Some(20)), off()]);
    assert_eq!((lit.power, lit.on, lit.known), (1, 2, true));
    assert!(!lit.dimmed && !lit.offline);
    // Known and nothing on: idle, and the icon disc goes to its off tint.
    let idle = room_state(&vec![off(), off()]);
    assert_eq!((idle.power, idle.on, idle.known), (0, 0, true));
    assert!(!idle.offline);
    // An unreadable device is excluded from the count, and leaves the icon
    // unknown rather than claiming that the room is off.
    let mixed = room_state(&vec![Reading::default(), off()]);
    assert_eq!((mixed.power, mixed.on, mixed.known), (-1, 0, true));
    // No device in the room reads at all: no status column.
    let silent = room_state(&vec![Reading::default(), Reading::default()]);
    assert_eq!((silent.power, silent.on, silent.known), (-1, 0, false));
    assert!(!silent.offline);
    assert_eq!(room_state(&vec![]), RoomState::default());
}

#[test]
fn dimmed_needs_a_reported_level_and_every_lit_light_below_half() {
    assert!(room_state(&vec![on(Some(20)), on(Some(49)), off()]).dimmed);
    assert!(!room_state(&vec![on(Some(20)), on(Some(50))]).dimmed);
    // A lit light with no level reported is not evidence of a dim room, and an
    // off light's zero must not drag the room into it.
    assert!(!room_state(&vec![on(None), on(None)]).dimmed);
    assert!(room_state(&vec![on(Some(10)), on(None)]).dimmed);
    assert!(!room_state(&vec![off(), off()]).dimmed);
}

#[test]
fn offline_is_reserved_for_a_connection_that_failed_its_last_fetch() {
    let down = || Reading { on: None, bright: None, lost: true };
    let gone = room_state(&vec![down(), Reading::default()]);
    assert!(gone.offline && gone.known);
    assert_eq!((gone.power, gone.on), (-1, 0));
    // A second bridge still answering: the count that it gives is true, so the
    // card shows it rather than declaring the whole room unreachable.
    let partial = room_state(&vec![down(), on(None)]);
    assert!(!partial.offline && partial.known);
    assert_eq!(partial.on, 1);
    assert!(!room_state(&vec![down(), off()]).offline);
    assert!(lost(&vec![text("a")], "a/light.strip"));
    assert!(!lost(&vec![text("a")], "b/light.strip"));
    // A legacy unprefixed entity belongs to the unnamed connection.
    assert!(lost(&vec![String::new()], "light.strip"));
}

fn three_rooms() -> Config {
    let mut config = empty_config();
    for id in ["living", "kitchen", "bedroom"] {
        config.rooms.push(room_of(id, id, vec![]));
    }
    config.areas.push(Screen {
        id: text("down"),
        name: text("DOWNSTAIRS"),
        rooms: vec![text("living"), text("kitchen")],
        scenes: vec![],
        activities: vec![],
    });
    config
}

#[test]
fn every_room_is_reachable_without_configured_areas() {
    let mut config = three_rooms();
    config.areas.clear();
    let areas = project(&config);
    assert_eq!(areas.len(), 1);
    assert_eq!(areas[0].room_ids.len(), config.rooms.len());
    assert_eq!(
        areas[0].room_ids,
        config.rooms.iter().map(|r| r.id.clone()).collect::<Vec<_>>()
    );
}

#[test]
fn an_empty_configuration_still_projects_one_reachable_area() {
    let areas = project(&empty_config());
    assert_eq!(areas.len(), 1);
    assert!(areas[0].id.is_none());
    assert!(areas[0].rooms.is_empty());
    assert!(areas[0].scenes.is_empty());
    assert!(areas[0].activities.is_empty());
}

#[test]
fn configured_screens_keep_their_room_order() {
    let mut config = three_rooms();
    config.areas[0].rooms.reverse();
    let areas = project(&config);
    assert_eq!(areas[0].name, config.areas[0].name);
    assert_eq!(areas[0].id.as_ref(), Some(&config.areas[0].id));
    assert!(areas.last().unwrap().id.is_none());
    assert_eq!(areas[0].room_ids, config.areas[0].rooms);
    assert_eq!(areas.last().unwrap().room_ids.len(), config.rooms.len());
}

#[test]
fn a_rooms_state_reaches_every_card_that_shows_it() {
    let config = lit_room();
    let plan = Plan::build(&config);
    let observed = Observed {
        hue: vec![Power { entity_id: text("h/3"), on: Some(true), brightness_percent: Some(30) }],
        hue_failed: vec![],
        home_assistant: vec![],
        home_assistant_failed: vec![text("a")],
    };
    let states = plan.states(&observed);
    assert_eq!(states[0].0, "r");
    assert_eq!((states[0].1.power, states[0].1.on, states[0].1.dimmed), (1, 1, true));
    let mut areas = project(&config);
    let mut monitor = RoomMonitor::new();
    let changed = monitor.poll(Some(states), &mut areas, 0);
    assert!(!changed.is_empty());
    let row = &areas[0].rooms[0];
    assert_eq!((row.power_state, row.active_count, row.status_known), (1, 1, true));
    assert!(row.dimmed && !row.idle && !row.offline);
    assert!(monitor.poll(None, &mut areas, 0).is_empty());
}

#[test]
fn an_accent_is_mixed_into_its_background() {
    assert_eq!(accent_tint([255, 255, 255]), [56, 54, 51]);
    assert_eq!(accent_tint([0, 0, 0]), [17, 16, 12]);
    assert_eq!(glyph(Icon::Sofa), 0);
    assert_eq!(glyph(Icon::Tv), 8);
    assert_eq!(glyph(Icon::Other(3)), 9);
}

fn light(id: &str) -> Light {
    Light {
        entity_id: text(id),
        name: text("Lamp"),
        on: Some(true),
        brightness_percent: Some(40),
        dimmable: true,
        mirek: None,
        mirek_range: None,
    }
}

#[test]
fn a_bridge_that_failed_is_remembered_and_the_others_are_listed() {
    let (mut states, mut failed) = (vec![], vec![]);
    hue_states(&mut states, &mut failed, &text("h"), Some(vec![DeviceState::Light(light("3"))]));
    hue_states(&mut states, &mut failed, &text("gone"), None);
    hue_states(&mut states, &mut failed, &text(""), Some(vec![DeviceState::Light(light("4"))]));
    let names: Vec<String> = states.iter().map(|s| s.id().clone()).collect();
    assert_eq!(names, ["h/3", "4"]);
    assert_eq!(failed, ["gone"]);
    let (mut powers, mut failed) = (vec![], vec![]);
    let read = vec![Power { entity_id: text("light.x"), on: None, brightness_percent: None }];
    ha_power(&mut powers, &mut failed, &text("a"), Some(read));
    ha_power(&mut powers, &mut failed, &text("b"), None);
    assert_eq!(powers[0].entity_id, "a/light.x");
    assert_eq!(failed, ["b"]);
    assert_eq!(matter_light("", light("1/1")).entity_id, "/1/1");
}

#[test]
fn a_connection_is_asked_for_each_of_its_own_names_once() {
    let wanted =
        ["attic/light.desk", "den/light.sofa", "attic/light.desk", "light.bare"].map(text).to_vec();
    assert_eq!(wanted_of(&wanted, "attic"), ["light.desk"]);
    assert_eq!(wanted_of(&wanted, "den"), ["light.sofa"]);
    assert!(wanted_of(&wanted, "cellar").is_empty());
}

#[test]
fn a_device_without_an_answer_leaves_the_card_as_it_is() {
    let reading = |on, bright, lost| Reading { on, bright, lost };
    let rooms = [
        vec![],
        vec![reading(Some(true), Some(40), false)],
        vec![reading(Some(false), None, false), reading(Some(false), None, false)],
        vec![reading(None, None, true)],
        vec![reading(Some(true), Some(90), false), reading(None, None, true)],
    ];
    for readings in rooms {
        let before = room_state(&readings);
        for at in 0..=readings.len() {
            let mut more = readings.clone();
            more.insert(at, Reading::default());
            let after = room_state(&more);
            let power = if before.power == 1 { 1 } else { -1 };
            assert_eq!(after, RoomState { power, ..before });
        }
    }
}

#[test]
fn entities_are_asked_for_in_the_order_of_their_first_device() {
    let mut config = empty_config();
    for (id, entities) in [("a", ["light.z", "light.b"]), ("b", ["light.a", "light.z"])] {
        let devices = entities
            .iter()
            .map(|entity| {
                let mut d = bare_device(entity, entity);
                d.integration = Some(Integration::HomeAssistant { entity_id: text(entity) });
                d
            })
            .collect();
        config.rooms.push(room_of(id, id, devices));
    }
    assert_eq!(Plan::build(&config).ha_ids, ["light.z", "light.b", "light.a"]);
}

#[test]
fn the_home_screen_is_read_once_for_each_configuration() {
    let config = empty_config();
    let white = Some([255, 255, 255]);
    assert!(read("", None, white).is_none());
    let (shown, areas, accent) = read("", Some((7, &config)), white).unwrap();
    assert_eq!((shown.as_str(), areas.len(), accent), ("7", 1, [255, 255, 255]));
    assert!(read(&shown, Some((7, &config)), white).is_none());
    assert_eq!(read(&shown, Some((8, &config)), white).unwrap().0, "8");
    assert!(read("", Some((7, &config)), None).is_none());
}

#[test]
fn a_connection_is_read_only_where_something_is_wanted_of_it() {
    let names = |texts: &[&str]| texts.iter().map(|t| text(t)).collect::<Vec<_>>();
    let mut config = empty_config();
    for id in ["attic", "cellar", "den"] {
        config.connections.push(Connection {
            id: text(id),
            name: text(id),
            provider: Provider::HomeAssistant,
        });
    }
    let wanted = names(&["den/light.sofa", "attic/light.desk", "den/light.tv", "den/light.sofa"]);
    let asks = asked(Some(&config), &wanted);
    assert_eq!(
        asks,
        [
            (text("attic"), names(&["light.desk"])),
            (text("den"), names(&["light.sofa", "light.tv"])),
        ]
    );
    assert!(asked(Some(&config), &names(&["light.lone"])).is_empty());
    // Without a connection there is the one that has no name.
    let lone = [(String::new(), names(&["light.lone"]))];
    assert_eq!(asked(None, &names(&["light.lone", "den/light.tv"])), lone);
}
