use couch_gui::device_state::{DeviceState, Light};
use couch_gui::light_work::{Adjustment, CoverButton};
use couch_gui::lights::{configured_in, Entry};
use couch_gui::model::{
    Activity, ChildComponent, ChildSnapshot, Config, Connection, CoverState, CoverTraits, Device,
    Icon, Integration, LightState, LightTraits, Provider, Room, RowKey, RowKeys, Scene,
};
use couch_gui::room_list::{
    card_label, heading, reading_ok, screen_word, Claim, Controller, Effect, Input, Job, Operation,
    Phase, Reply, ScreenWord, Step, Turn,
    SEND_EVERY_MS, UPDATING_AFTER_MS,
};
use couch_gui::volume::PluginStatus;

#[allow(dead_code)]
fn text(s: &str) -> String {
    s.to_string()
}

#[allow(dead_code)]
fn no_keys() -> RowKeys {
    let none = RowKey { supported: false, repeats: false };
    RowKeys {
        volume_up: none,
        volume_down: none,
        mute: none,
        toggle: false,
        power_on: false,
        power_off: false,
        power_repeats: false,
    }
}

#[allow(dead_code)]
fn bare_device(id: &str, name: &str) -> Device {
    Device {
        id: text(id),
        name: text(name),
        icon: Icon::Other(0),
        connection: None,
        integration: None,
        network: None,
        identity: None,
        component: None,
        ir: false,
        bluetooth: None,
        can_toggle: false,
        player: false,
        has_screen: false,
        keys: no_keys(),
    }
}

#[allow(dead_code)]
fn room_of(id: &str, name: &str, devices: Vec<Device>) -> Room {
    Room {
        id: text(id),
        name: text(name),
        icon: Icon::Other(0),
        summary: String::new(),
        detail: String::new(),
        devices,
    }
}

#[allow(dead_code)]
fn empty_config() -> Config {
    Config {
        areas: vec![],
        connections: vec![],
        rooms: vec![],
        activities: vec![],
        scenes: vec![],
    }
}

fn connection(id: &str, provider: Provider) -> Connection {
    Connection { id: text(id), name: text(id), provider }
}

fn device_on(id: &str, name: &str, connection: &str, make: impl Fn() -> Integration) -> Device {
    let mut d = bare_device(id, name);
    d.connection = Some(text(connection));
    d.integration = Some(make());
    d.network = Some(make());
    d
}

fn child(
    id: &str,
    name: &str,
    connection: &str,
    resource: &str,
    component: ChildComponent,
    snapshot: ChildSnapshot,
) -> Device {
    let mut d = device_on(id, name, connection, || Integration::Plugin {
        connection_id: text(connection),
        resource_id: text(resource),
        child: Some(snapshot),
        actions: vec![],
    });
    d.component = Some(component);
    d
}

const NOTHING: ChildSnapshot = ChildSnapshot { light: None, cover: None, climate: false };

fn light_child(mirek: Option<(u16, u16)>) -> ChildSnapshot {
    ChildSnapshot {
        light: Some(LightTraits { dimmable: true, mirek, color: false }),
        ..NOTHING
    }
}

/// A bridge that offers children, and a receiver that is a connection of its
/// own: the two shapes that a packaged connection has.
fn packaged() -> Config {
    let mut config = empty_config();
    config.connections =
        vec![connection("bridge", Provider::Plugin), connection("receiver", Provider::Plugin)];
    let blind = ChildSnapshot {
        cover: Some(CoverTraits { position: true, stop: true }),
        ..NOTHING
    };
    config.rooms.push(room_of(
        "living-room",
        "Living room",
        vec![
            child(
                "desk",
                "Desk lamp",
                "bridge",
                "lamp/1",
                ChildComponent::Light,
                light_child(Some((153, 500))),
            ),
            child(
                "reading",
                "Reading lamp",
                "bridge",
                "lamp/2",
                ChildComponent::Light,
                light_child(None),
            ),
            child("blind", "Blind", "bridge", "cover/1", ChildComponent::Cover, blind),
            child(
                "heat",
                "Heating",
                "bridge",
                "climate/1",
                ChildComponent::Climate,
                ChildSnapshot { climate: true, ..NOTHING },
            ),
            device_on("avr", "Theater AVR", "receiver", || Integration::Plugin {
                connection_id: text("receiver"),
                resource_id: String::new(),
                child: None,
                actions: vec![],
            }),
        ],
    ));
    config.scenes.push(Scene {
        id: text("relax"),
        name: text("Relax"),
        rooms: vec![text("living-room")],
    });
    config
}


fn silent() -> PluginStatus {
    PluginStatus { on: None, muted: None, volume: None, volume_db: None, light: None, cover: None }
}

fn read(entries: &mut [Entry], i: usize, status: PluginStatus) {
    let e = &mut entries[i];
    let mut state = e.plugin.as_ref().unwrap().state(&e.name, &status).unwrap();
    state.set_id(e.id.clone());
    e.state = Some(state);
}

fn light(brightness: u8, mirek: Option<u16>) -> PluginStatus {
    let light = LightState { on: Some(true), brightness: Some(brightness), mirek };
    PluginStatus { light: Some(light), ..silent() }
}

fn cover(position: u8) -> PluginStatus {
    let cover = CoverState { open: Some(true), position: Some(position) };
    PluginStatus { cover: Some(cover), ..silent() }
}

/// The living room with a reading on each of its lamps and on its blind.
fn living_room(config: &Config) -> Controller {
    let mut c = Controller::new(0);
    let mut entries = configured_in(config, "living-room").unwrap();
    read(&mut entries, 0, light(40, Some(370)));
    read(&mut entries, 1, light(70, None));
    read(&mut entries, 2, cover(60));
    c.entries = entries;
    c.room = Some(text("living-room"));
    c
}

fn shown(c: &Controller, config: &Config) -> Vec<String> {
    c.entries
        .iter()
        .map(|e| {
            let row = c.row(Some(config), e);
            format!("{} - {}{}", row.title, row.detail, if row.controls { " ›" } else { "" })
        })
        .collect()
}

/// Handle every key that waits.
fn poll(c: &mut Controller, config: &Config) -> Vec<Effect> {
    let mut effects = vec![];
    while let Some(step) = c.poll(Some(config), 1, 1_000_000) {
        let Step { effects: first, send, after } = step;
        effects.extend(first);
        if let Some(job) = send {
            effects.extend(c.sent(job, true, 1_000_000));
        }
        effects.extend(after);
    }
    effects
}

/// Open the screen of a row.
fn open_screen(c: &mut Controller, config: &Config, row: usize) {
    c.push(Input::Pick(row));
    poll(c, config);
    assert_eq!(c.screen.as_ref(), Some(&c.entries[row].id));
}

fn act(c: &mut Controller, config: &Config, word: &str, index: i32) -> Step {
    c.screen_action(Some(config), screen_word(word), index, 1_000_000)
}

#[test]
fn a_room_of_built_in_hue_lights_is_drawn_as_it_always_was() {
    let mut config = empty_config();
    config.connections.push(connection("bridge", Provider::Hue));
    let lamp = |id: &str, name: &str, light: &str| {
        device_on(id, name, "bridge", || Integration::Hue { light_id: format!("bridge/{light}") })
    };
    config.rooms.push(room_of(
        "living-room",
        "Living room",
        vec![
            lamp("desk", "Desk lamp", "1"),
            lamp("reading", "Reading lamp", "2"),
            lamp("corner", "Corner lamp", "3"),
        ],
    ));
    let mut c = Controller::new(0);
    c.entries = configured_in(&config, "living-room").unwrap();
    for (i, on, percent) in [(0, true, 40), (1, false, 70)] {
        c.entries[i].state = Some(DeviceState::Light(Light {
            entity_id: c.entries[i].id.clone(),
            name: c.entries[i].name.clone(),
            on: Some(on),
            brightness_percent: Some(percent),
            dimmable: true,
            mirek: None,
            mirek_range: None,
        }));
    }
    // The third said nothing: unknown, never an inferred off.
    assert_eq!(
        shown(&c, &config),
        ["Desk lamp - On · 40% ›", "Reading lamp - Off ›", "Corner lamp - Unavailable"]
    );
}

#[test]
fn a_room_draws_packaged_lamps_and_a_blind_as_ordinary_rows() {
    let config = packaged();
    let mut c = living_room(&config);
    c.entries[1].state = None;
    assert_eq!(
        shown(&c, &config),
        [
            "Desk lamp - On · 40% ›",
            "Reading lamp - Unavailable ›",
            "Blind - Open · 60% open ›",
            "Heating - Press OK for controls ›",
            "Theater AVR - Press OK for controls ›"
        ]
    );
}

#[test]
fn a_row_told_it_needs_pairing_says_so() {
    let config = packaged();
    let mut c = Controller::new(0);
    c.entries = configured_in(&config, "living-room").unwrap();
    c.entries[1].unpaired = true;
    assert_eq!(
        shown(&c, &config),
        [
            "Desk lamp - Unavailable ›",
            "Reading lamp - Needs pairing ›",
            "Blind - Unavailable ›",
            "Heating - Press OK for controls ›",
            "Theater AVR - Press OK for controls ›"
        ]
    );
}

#[test]
fn the_power_key_switches_light_rows_and_leaves_the_rest_alone() {
    let mut config = packaged();
    // An activity pinned above the devices, so that the row it adds is part of
    // what the key has to see past.
    config.activities.push(Activity {
        id: text("movie"),
        name: text("Movie night"),
        room: text("living-room"),
        source: None,
        glyph: 0,
        buttons: vec![],
        pages: vec![],
    });
    let mut c = Controller::new(0);
    c.entries = configured_in(&config, "living-room").unwrap();
    c.room = Some(text("living-room"));
    for (row, takes) in [
        (0, false),
        (1, true),
        (2, true),
        (3, true),
        (4, false),
        (5, false),
        (6, false),
    ] {
        c.input.clear();
        assert_eq!(c.power_press(true, false, row), takes, "row {row}");
        assert_eq!(c.input.len(), usize::from(takes));
    }
    // Off the room list the key is nobody's here.
    assert!(!c.power_press(false, false, 1));
    assert!(!c.power_press(true, true, 1));
}

#[test]
fn volume_is_the_level_channel_is_the_warmth_and_no_bar_is_ever_selected() {
    let config = packaged();
    let mut c = living_room(&config);
    let levels = |c: &Controller| c.brightness_pending.iter().cloned().collect::<Vec<_>>();
    let mireks = |c: &Controller| c.mirek_pending.iter().cloned().collect::<Vec<_>>();
    let drawn = |c: &Controller| c.render_screen_at(Some(&packaged()), "", 1_000_000).unwrap();

    // The lamp that dims and tunes.
    open_screen(&mut c, &config, 0);
    let lamp = text("plugin:bridge/lamp/1");
    act(&mut c, &config, "level", 1);
    assert_eq!(levels(&c), [(lamp.clone(), 45)]);
    act(&mut c, &config, "level", 1);
    act(&mut c, &config, "level", 1);
    assert_eq!(levels(&c), [(lamp.clone(), 55)]);
    act(&mut c, &config, "level", -1);
    assert_eq!(levels(&c), [(lamp.clone(), 50)]);
    // The state line follows the target, so it never contradicts the bar while
    // the write is out.
    assert_eq!(drawn(&c).view.state, "On · 50%");
    assert_eq!(drawn(&c).view.level, "50%");

    // Channel is the colour temperature, and it too keeps only the latest.
    act(&mut c, &config, "warmth", 1);
    assert_eq!(mireks(&c), [(lamp.clone(), 353)]);
    act(&mut c, &config, "warmth", 1);
    assert_eq!(mireks(&c), [(lamp.clone(), 336)]);
    act(&mut c, &config, "warmth", -1);
    assert_eq!(mireks(&c), [(lamp.clone(), 353)]);
    // Held to either end, it stops at the lamp's own limits.
    for _ in 0..40 {
        act(&mut c, &config, "warmth", 1);
    }
    assert_eq!(mireks(&c), [(lamp.clone(), 153)]);
    for _ in 0..40 {
        act(&mut c, &config, "warmth", -1);
    }
    assert_eq!(mireks(&c), [(lamp.clone(), 500)]);

    // Left and right have nothing to move on a lamp.
    for index in [1, -1, 1, 1] {
        act(&mut c, &config, "button", index);
    }
    assert_eq!(c.screen_button, 0);
    assert_eq!(levels(&c), [(lamp.clone(), 50)]);
    assert_eq!(mireks(&c), [(lamp, 500)]);

    // A lamp that only dims has no colour temperature.
    c.brightness_pending.clear();
    c.mirek_pending.clear();
    c.screen = None;
    open_screen(&mut c, &config, 1);
    act(&mut c, &config, "warmth", 1);
    act(&mut c, &config, "warmth", -1);
    assert!(mireks(&c).is_empty());
    act(&mut c, &config, "level", 1);
    assert_eq!(levels(&c), [(text("plugin:bridge/lamp/2"), 75)]);

    // A blind: volume is its open position, and left and right walk its three
    // buttons and go no further.
    c.brightness_pending.clear();
    c.screen = None;
    open_screen(&mut c, &config, 2);
    let blind = text("plugin:bridge/cover/1");
    assert_eq!(c.screen_button, 0);
    act(&mut c, &config, "level", 1);
    assert_eq!(levels(&c), [(blind.clone(), 65)]);
    assert_eq!(drawn(&c).view.state, "Open · 65% open");
    act(&mut c, &config, "warmth", 1);
    assert!(mireks(&c).is_empty());
    for (index, button) in [(1, 1), (1, 2), (1, 2), (-1, 1), (-1, 0), (-1, 0)] {
        act(&mut c, &config, "button", index);
        assert_eq!(c.screen_button, button);
        assert_eq!(drawn(&c).button, button);
    }
    // The bar keeps moving whichever button is highlighted.
    act(&mut c, &config, "button", 1);
    act(&mut c, &config, "level", 1);
    assert_eq!(levels(&c), [(blind, 70)]);
    assert_eq!(c.screen_button, 1);
}

#[test]
fn the_state_line_only_says_updating_once_a_write_has_stopped_answering() {
    let config = packaged();
    let mut c = living_room(&config);
    open_screen(&mut c, &config, 0);
    let id = c.entries[0].id.clone();
    let drawn =
        |c: &Controller, now| c.render_screen_at(Some(&packaged()), "", now).unwrap();
    assert!(!drawn(&c, 1_000_000).updating);
    // A press, and the write that it sends: the bar and the state line have both
    // already moved, and neither says that anything is updating.
    act(&mut c, &config, "level", 1);
    let sent = 2_000_000;
    let job = c.send_brightness(sent).unwrap();
    c.sent(job, true, sent);
    assert!(matches!(&c.busy, Some(Claim::Row(row)) if *row == id));
    assert_eq!(drawn(&c, sent).view.state, "On · 45%");
    assert!(!drawn(&c, sent).updating);
    assert!(!drawn(&c, sent + UPDATING_AFTER_MS - 1).updating);
    assert!(drawn(&c, sent + UPDATING_AFTER_MS).updating);
    assert_eq!(drawn(&c, sent + UPDATING_AFTER_MS).view.state, "On · 45%");
    // The answer takes the label away again, just as quietly.
    let generation = c.generation;
    let mut state = c.entries[0].state.as_ref().unwrap().copy();
    if let DeviceState::Light(light) = &mut state {
        light.brightness_percent = Some(45);
    }
    c.receive(generation, Reply::State(state), sent + 1600);
    assert!(!drawn(&c, sent + 1600).updating);
    // A write that is out for another row is not this screen's business.
    c.busy = Some(Claim::Row(text("plugin:bridge/lamp/2")));
    c.busy_since = Some(sent + 1600);
    assert!(!drawn(&c, sent + 10_600).updating);
}

#[test]
fn the_screen_opens_on_ok_and_back_returns_to_the_same_row() {
    let config = packaged();
    let mut c = living_room(&config);
    c.push(Input::Pick(2));
    let effects = poll(&mut c, &config);
    assert!(effects.iter().any(|e| matches!(e, Effect::OpenScreen)));
    let drawn = c.render_screen_at(Some(&config), "", 1_000_000).unwrap();
    assert_eq!(drawn.view.title, "Blind");
    assert!(drawn.view.cover);
    // Power on the open screen is the screen's device, not the room's.
    assert!(c.power_press(true, false, 2));
    c.input.clear();
    c.push(Input::Screen { word: ScreenWord::Close, index: 0 });
    let effects = poll(&mut c, &config);
    assert!(effects.iter().any(|e| matches!(e, Effect::CloseScreen { home: false })));
    assert!(c.screen.is_none());
    // The receiver two rows further on keeps the screen that it had.
    c.push(Input::Pick(4));
    let effects = poll(&mut c, &config);
    assert!(c.screen.is_none());
    assert!(effects.iter().any(|e| matches!(e, Effect::OpenTv { row, .. } if row == "device:avr")));
}

#[test]
fn a_level_goes_out_once_and_a_busy_connection_loses_nothing() {
    let config = packaged();
    let mut c = living_room(&config);
    open_screen(&mut c, &config, 0);
    act(&mut c, &config, "level", 1);
    let job = c.send_brightness(2_000_000).unwrap();
    match &job.operation {
        Operation::Adjust { id, adjustment } => {
            assert_eq!(id, "plugin:bridge/lamp/1");
            assert!(matches!(adjustment, Adjustment::Brightness(45)));
        }
        other => panic!("{other:?}"),
    }
    let generation = job.generation;
    c.sent(job, true, 2_000_000);
    assert!(c.send_brightness(2_000_000 + SEND_EVERY_MS).is_none(), "one at a time");
    c.receive(generation, Reply::Busy, 2_000_100);
    let again = c.send_brightness(2_000_000 + 10 * SEND_EVERY_MS).unwrap();
    assert!(matches!(
        again.operation,
        Operation::Adjust { adjustment: Adjustment::Brightness(45), .. }
    ));
}

#[test]
fn an_answer_for_a_room_that_was_left_changes_nothing() {
    let config = packaged();
    let mut c = living_room(&config);
    let before = shown(&c, &config);
    let stale = c.generation.wrapping_sub(1);
    let effects = c.receive(stale, Reply::List(vec![]), 1_000_000);
    assert!(effects.is_empty());
    assert_eq!(shown(&c, &config), before);
}

#[test]
fn opening_a_room_lists_it_and_reads_it() {
    let config = packaged();
    let mut c = Controller::new(0);
    c.push(Input::Open(text("living-room")));
    let step = c.poll(Some(&config), 1, 1000).unwrap();
    assert!(step
        .effects
        .iter()
        .chain(step.after.iter())
        .any(|e| matches!(e, Effect::ShowList { room } if room == "living-room")));
    let job: Job = match step.send {
        Some(job) => job,
        None => c.refresh(1000).unwrap(),
    };
    assert!(matches!(job.operation, Operation::List));
    assert_eq!(c.entries.len(), 5);
    c.push(Input::Back);
    let effects = poll(&mut c, &config);
    assert!(effects.iter().any(|e| matches!(e, Effect::LeaveList)));
    assert!(c.room.is_none());
}

#[test]
fn a_blinds_buttons_drive_it() {
    let config = packaged();
    let mut c = living_room(&config);
    open_screen(&mut c, &config, 2);
    act(&mut c, &config, "button", 1);
    let step = act(&mut c, &config, "cover", 1);
    match step.send {
        Some(Job { operation: Operation::Adjust { adjustment, .. }, .. }) => {
            assert!(matches!(adjustment, Adjustment::Cover(CoverButton::Stop)))
        }
        other => panic!("{other:?}"),
    }
}

#[test]
fn a_key_for_a_device_with_infrared_is_tried_there_first() {
    let mut config = packaged();
    config.rooms[0].devices[0].ir = true;
    let mut c = living_room(&config);
    c.push(Input::PhysicalLevel { row: 0, delta: 5, repeat: false });
    poll(&mut c, &config);
    assert!(c.brightness_pending.is_empty());
    let job = c.send_ir().unwrap();
    match &job.operation {
        Operation::Ir(ir) => {
            assert_eq!((ir.device.as_str(), ir.function.name()), ("desk", "volume-up"));
            assert!(!ir.repeat);
        }
        other => panic!("{other:?}"),
    }
    // A worker that has no room gives the key back.
    c.sent(job, false, 2_000_000);
    let job = c.send_ir().unwrap();
    let generation = job.generation;
    c.sent(job, true, 2_000_000);
    assert!(matches!(c.busy, Some(Claim::Ir)));
    assert!(c.send_ir().is_none());
    // No code was assigned to it, so the key does what it does on a lamp.
    let resume = Input::Brightness { row: 0, delta: 5 };
    c.receive(generation, Reply::IrChecked { handled: false, resume }, 2_000_010);
    poll(&mut c, &config);
    assert_eq!(c.brightness_pending.front(), Some(&(text("plugin:bridge/lamp/1"), 45)));
}

#[test]
fn a_screen_stays_with_its_row_and_closes_without_it() {
    let config = packaged();
    let mut c = living_room(&config);
    assert!(c.follow_screen().is_none());
    open_screen(&mut c, &config, 0);
    assert!(matches!(c.follow_screen(), Some(Effect::Draw)));
    c.entries.remove(0);
    assert!(matches!(c.follow_screen(), Some(Effect::CloseScreen { home: false })));
    assert!(c.screen.is_none());
}

#[test]
fn the_level_card_comes_down_by_itself() {
    let config = packaged();
    let mut c = living_room(&config);
    c.push(Input::Brightness { row: 0, delta: 1 });
    poll(&mut c, &config);
    let until = c.brightness_until.unwrap();
    assert!(!c.card_due(until - 1));
    assert!(c.card_due(until));
    assert!(!c.card_due(until));
}

#[test]
fn a_toast_is_shown_once() {
    let mut config = packaged();
    let legacy = || Integration::Legacy { needs_package: text("Needs the Denon package") };
    config.rooms[0].devices.push(device_on("old", "Old AVR", "receiver", legacy));
    let mut c = Controller::new(0);
    c.entries = configured_in(&config, "living-room").unwrap();
    c.room = Some(text("living-room"));
    c.push(Input::Pick(5));
    poll(&mut c, &config);
    assert_eq!(c.take_notice(), Some(text("Needs the Denon package")));
    assert_eq!(c.take_notice(), None);
}

#[test]
fn a_colour_range_runs_from_cool_to_warm() {
    let lamp = |range| {
        DeviceState::Light(Light {
            entity_id: text("hue:1"),
            name: text("Lamp"),
            on: Some(true),
            brightness_percent: Some(40),
            dimmable: true,
            mirek: Some(300),
            mirek_range: range,
        })
    };
    assert!(reading_ok(&lamp(None)) && reading_ok(&lamp(Some((153, 500)))));
    assert!(!reading_ok(&lamp(Some((500, 153)))));
}

#[test]
fn a_rooms_heading_names_its_one_scene_or_counts_them() {
    let mut config = packaged();
    let one = heading(Some(&config), "living-room");
    assert_eq!((one.title.as_str(), one.scene_label.as_str(), one.scenes), ("Living room", "Relax", 1));
    config.scenes.push(Scene {
        id: text("film"),
        name: text("Film"),
        rooms: vec![text("den"), text("living-room")],
    });
    assert_eq!(heading(Some(&config), "living-room").scene_label, "2 scenes");
    let gone = heading(Some(&config), "attic");
    assert_eq!((gone.title.as_str(), gone.scene_label.as_str(), gone.scenes), ("Room", "0 scenes", 0));
    assert_eq!(heading(None, "living-room").title, "Room");
    assert_eq!((card_label(true), card_label(false)), ("Open position", "Brightness"));
}

/// Go through one turn: the phases in their order, and the jobs that were handed
/// on, each of them taken.
fn turn(
    c: &mut Controller,
    config: &Config,
    now: u64,
    pairing: bool,
    answers: Vec<(u64, Reply)>,
) -> (Vec<Phase>, Vec<Operation>, Vec<Effect>) {
    let (mut phases, mut jobs, mut effects) = (vec![], vec![], vec![]);
    let mut answers = answers.into_iter();
    let mut phase = Phase::Card;
    while phase != Phase::Over {
        phases.push(phase);
        let answer = if phase == Phase::Answers { answers.next() } else { None };
        let (step, next) = c.turn(phase, Turn { pairing, answer, now }, Some(config), 1);
        effects.extend(step.effects);
        if let Some(job) = step.send {
            let Job { generation, room, operation } = job;
            let copy = match &operation {
                Operation::List => Operation::List,
                Operation::Adjust { id, adjustment } => {
                    Operation::Adjust { id: id.clone(), adjustment: *adjustment }
                }
                Operation::Ir(_) => panic!("no key waits for infrared"),
            };
            jobs.push(copy);
            effects.extend(c.sent(Job { generation, room, operation }, true, now));
        }
        effects.extend(step.after);
        phase = next;
    }
    (phases, jobs, effects)
}

#[test]
fn a_turn_takes_inputs_before_answers_and_sends_after_both() {
    let config = packaged();
    let mut c = living_room(&config);
    let generation = c.generation;
    c.push(Input::Brightness { row: 0, delta: 5 });
    c.push(Input::Brightness { row: 0, delta: 5 });
    let stale = (generation + 7, Reply::Busy);
    let (phases, jobs, _) = turn(&mut c, &config, 1_000_000, false, vec![stale]);
    assert_eq!(
        phases,
        [
            Phase::Card,
            Phase::Pairing,
            Phase::Inputs,
            Phase::Inputs,
            Phase::Inputs,
            Phase::Answers,
            Phase::Answers,
            Phase::Infrared,
            Phase::Level,
            Phase::Screen,
            Phase::Refresh,
        ]
    );
    // Both presses are one write, and nothing is read while it is out.
    match &jobs[..] {
        [Operation::Adjust { id, adjustment: Adjustment::Brightness(50) }] => {
            assert_eq!(id, "plugin:bridge/lamp/1")
        }
        jobs => panic!("{jobs:?}"),
    }
    // The answer frees the worker in the same turn, but it is too soon to read.
    let generation = c.generation;
    let (_, jobs, _) = turn(&mut c, &config, 1_000_050, false, vec![(generation, Reply::Busy)]);
    assert!(jobs.is_empty());
    // A pairing drops what waits and ends the turn.
    c.push(Input::Brightness { row: 0, delta: 5 });
    let (phases, jobs, effects) = turn(&mut c, &config, 1_000_060, true, vec![]);
    assert_eq!(phases, [Phase::Card, Phase::Pairing]);
    assert!(jobs.is_empty() && c.input.is_empty() && c.brightness_pending.is_empty());
    assert!(effects.iter().any(|e| matches!(e, Effect::HideCard)));
    let (_, jobs, _) = turn(&mut c, &config, 1_010_000, false, vec![]);
    assert!(matches!(jobs[..], [Operation::List]));
}
