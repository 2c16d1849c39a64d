use couch_gui::activity_buttons::{
    row_bindings, Controller, Feedback, Pending, Press, Request, Screen, HOLD_MS, POWER_TOGGLE, ROW,
};
use couch_gui::commands::{
    key_phase, plugin_failure, Action, Binding, Button, Command, Failure, Function, Gesture, KeyPhase, Outcome,
    PluginCode, PluginFailure, PowerValue, Reason, VolumeDb, VolumeText,
};
use couch_gui::dispatch::{
    assigned, execute_with_input, ir_answer, power_toggle, send_bluetooth, try_device_ir, IrEvent, IrStep,
    Offer, Plan, PowerEvent, PowerStage, PowerStep, Toggles, Walk, WalkStep,
};
use couch_gui::model::{
    Activity, ActionSchema, Bond, Config, Device, Icon, Integration, Room, RowKey, RowKeys,
    Transport,
};
use couch_gui::network_press::{
    kodi_player_call, send_network, session_is_suspect, Call, Event, Job, SonosError, Stage, Step,
};
use couch_gui::volume::{db_reading, plugin_volume_reading, DbScale, PluginStatus};
use std::collections::VecDeque;

const HINT: &str = "Pair it from the browser";

#[allow(dead_code)]
fn text(s: &str) -> String {
    s.to_string()
}

#[allow(dead_code)]
fn no_keys() -> RowKeys {
    let none = RowKey { supported: false, repeats: false };
    RowKeys {
        volume_up: none,
        volume_down: none,
        mute: none,
        toggle: false,
        power_on: false,
        power_off: false,
        power_repeats: false,
    }
}

#[allow(dead_code)]
fn bare_device(id: &str, name: &str) -> Device {
    Device {
        id: text(id),
        name: text(name),
        icon: Icon::Other(0),
        connection: None,
        integration: None,
        network: None,
        identity: None,
        component: None,
        ir: false,
        bluetooth: None,
        can_toggle: false,
        player: false,
        has_screen: false,
        keys: no_keys(),
    }
}

#[allow(dead_code)]
fn room_of(id: &str, name: &str, devices: Vec<Device>) -> Room {
    Room {
        id: text(id),
        name: text(name),
        icon: Icon::Other(0),
        summary: String::new(),
        detail: String::new(),
        devices,
    }
}

#[allow(dead_code)]
fn empty_config() -> Config {
    Config {
        areas: vec![],
        connections: vec![],
        rooms: vec![],
        activities: vec![],
        scenes: vec![],
    }
}

fn plugin(connection: &str) -> Integration {
    Integration::Plugin {
        connection_id: text(connection),
        resource_id: String::new(),
        child: None,
        actions: vec![],
    }
}

fn all_keys() -> RowKeys {
    let repeats = RowKey { supported: true, repeats: true };
    RowKeys {
        volume_up: repeats,
        volume_down: repeats,
        mute: RowKey { supported: true, repeats: false },
        toggle: false,
        power_on: true,
        power_off: true,
        power_repeats: false,
    }
}

fn legacy() -> Integration {
    Integration::Legacy { needs_package: text("Needs the Denon package") }
}

/// A room with a packaged receiver, a receiver that waits for its package, a
/// webOS television, a Sonos speaker and a Hue light.
fn room() -> Config {
    let mut config = empty_config();
    let mut devices = vec![];
    for id in ["avr-package", "avr-legacy", "lg"] {
        let mut d = bare_device(id, id);
        d.connection = Some(text(id));
        let (integration, network) = match id {
            "avr-package" => (plugin(id), plugin(id)),
            "avr-legacy" => (legacy(), legacy()),
            _ => (Integration::WebOs, Integration::WebOs),
        };
        d.integration = Some(integration);
        d.network = Some(network);
        d.keys = all_keys();
        devices.push(d);
    }
    let mut sonos = bare_device("sonos", "Sonos");
    sonos.integration = Some(Integration::Sonos { host: text("192.0.2.9") });
    sonos.keys = all_keys();
    devices.push(sonos);
    let mut lamp = bare_device("lamp", "Lamp");
    lamp.integration = Some(Integration::Hue { light_id: text("1") });
    lamp.can_toggle = true;
    lamp.keys = all_keys();
    devices.push(lamp);
    config.rooms.push(room_of("living", "Living room", devices));
    config
}

fn device<'a>(config: &'a Config, id: &str) -> &'a Device {
    config.device(id).unwrap()
}

fn keys(bindings: &[Binding]) -> Vec<(Button, String)> {
    bindings.iter().map(|b| (b.button, b.action.as_ref().unwrap().command.clone())).collect()
}

fn action(device: &str, command: &str) -> Action {
    Action {
        device: text(device),
        command: text(command),
        repeatable: command.starts_with("volume-"),
    }
}

fn job(d: &Device, command: &str, function: Function) -> Job {
    Job {
        name: d.name.clone(),
        connection: d.connection.clone().unwrap_or_default(),
        integration: copy(&d.network),
        command: Command { id: text(command), function },
        phase: KeyPhase::Tap,
    }
}

fn copy(integration: &Option<Integration>) -> Option<Integration> {
    match integration {
        Some(Integration::Legacy { needs_package }) => {
            Some(Integration::Legacy { needs_package: needs_package.clone() })
        }
        Some(Integration::Matter { device }) => Some(Integration::Matter { device: device.clone() }),
        Some(Integration::WebOs) => Some(Integration::WebOs),
        Some(Integration::Kodi { host, port }) => {
            Some(Integration::Kodi { host: host.clone(), port: *port })
        }
        Some(Integration::Plugin { connection_id, .. }) => Some(plugin(connection_id)),
        _ => None,
    }
}

#[test]
fn a_receiver_or_tv_row_answers_volume_mute_and_power_and_other_rows_do_not() {
    let config = room();
    let expected = vec![
        (Button::VolumeUp, text("volume-up")),
        (Button::VolumeDown, text("volume-down")),
        (Button::Mute, text("mute")),
        (Button::Power, text(POWER_TOGGLE)),
    ];
    for id in ["avr-package", "avr-legacy", "lg"] {
        let bindings = row_bindings(device(&config, id));
        assert_eq!(keys(&bindings), expected, "{id}");
        assert!(bindings
            .iter()
            .all(|b| b.gesture == Gesture::Short && b.action.as_ref().unwrap().device == id));
    }
    // Sonos rows keep their own controller; a light has no use for the keys.
    for d in &config.rooms[0].devices {
        let sonos = matches!(d.integration, Some(Integration::Sonos { .. }));
        if sonos || d.can_toggle {
            assert!(row_bindings(d).is_empty(), "{}", d.name);
        }
    }
}

#[test]
fn a_command_kodi_does_not_have_is_refused_and_never_becomes_previous_item() {
    for (function, method) in [
        (Function::PlayPause, "Player.PlayPause"),
        (Function::Stop, "Player.Stop"),
        (Function::Next, "Player.GoTo"),
        (Function::Previous, "Player.GoTo"),
    ] {
        assert_eq!(kodi_player_call(&function).unwrap().0.name(), method);
    }
    assert_eq!(
        kodi_player_call(&Function::Previous).unwrap().1.pair(),
        Some(("to", "previous"))
    );
    for function in [
        Function::On,
        Function::Off,
        Function::PowerOn,
        Function::PowerOff,
        Function::Other,
    ] {
        assert!(kodi_player_call(&function).is_none());
    }
    // Sent to a Kodi box, such a command is unavailable, so that infrared or
    // Bluetooth may still carry it, and nothing is asked of the box at all.
    let mut kodi = bare_device("box", "box");
    kodi.network = Some(Integration::Kodi { host: text("127.0.0.1"), port: 9090 });
    for (id, function) in
        [("on", Function::On), ("power-on", Function::PowerOn), ("power-off", Function::PowerOff)]
    {
        let work = job(&kodi, id, function);
        let mut stage = Stage::Start;
        let mut event = Event::Begin { kept: false };
        let why = loop {
            match send_network(&work, stage, event) {
                Step::Do { call: Call::KodiLoad, stage: next } => {
                    stage = next;
                    event = Event::KodiSaved(None);
                }
                Step::Do { call: Call::KodiOpen(_), stage: next } => {
                    stage = next;
                    event = Event::Connected;
                }
                Step::Finish { result: Err(Failure::Unavailable(why)), .. } => break why,
                step => panic!("{id}: {step:?}"),
            }
        };
        assert!(why.text(HINT).starts_with("Kodi has no "), "{id}");
    }
}

#[test]
fn a_declared_decibel_range_gives_the_bar_a_percentage_and_a_held_key_its_steps() {
    let config = room();
    // The package declares no set-volume action: no scale, so no bar and
    // nothing to predict from.
    assert_eq!(DbScale::of(device(&config, "avr-package").network.as_ref().unwrap()), None);
    let declared = Integration::Plugin {
        connection_id: text("avr-package"),
        resource_id: String::new(),
        child: None,
        actions: vec![ActionSchema::SetVolumeDb {
            min_tenths: -800,
            max_tenths: 180,
            step_tenths: 5,
        }],
    };
    let scale = DbScale::of(&declared).unwrap();
    assert_eq!((scale.percent(-800), scale.percent(180)), (0, 100));
    assert_eq!(scale.percent(-415), 39);
    // Out-of-range readings pin to the ends rather than overflow the bar.
    assert_eq!((scale.percent(-900), scale.percent(300)), (0, 100));
    assert_eq!(scale.stepped(-415, true), -410);
    assert_eq!(scale.stepped(-415, false), -420);
    assert_eq!(scale.stepped(180, true), 180);
    assert_eq!(scale.stepped(-800, false), -800);
    // A held key travels: 1 dB up, 2 dB down, clamped at the ends, and never
    // less than one declared step on a coarser scale.
    assert_eq!(scale.held(-415, true), -405);
    assert_eq!(scale.held(-415, false), -435);
    assert_eq!(scale.held(175, true), 180);
    assert_eq!(scale.held(-790, false), -800);
    let coarse = DbScale { min: -800, max: 180, step: 30 };
    assert_eq!((coarse.held(-400, true), coarse.held(-400, false)), (-370, -430));
    let predicted =
        db_reading(&text("Theater AVR"), scale.stepped(-415, true), false, Some(scale));
    assert_eq!((predicted.text.text().as_str(), predicted.level), ("-41.0 dB", 40));
    // A receiver that still waits for its package declares no scale either.
    assert_eq!(DbScale::of(device(&config, "avr-legacy").network.as_ref().unwrap()), None);
}

#[test]
fn power_on_a_row_yields_to_a_running_activity() {
    let config = room();
    let mut controller = Controller::new();
    controller.refresh(format!("{ROW}avr-legacy"), Some(&config), 1);
    assert!(controller.binding(Button::Power, Gesture::Short).is_some());
    assert!(controller.binding(Button::VolumeUp, Gesture::Short).is_some());
    controller.activity_running = true;
    assert!(controller.binding(Button::Power, Gesture::Short).is_none());
    assert!(controller.binding(Button::VolumeUp, Gesture::Short).is_some());
    // A row whose device is gone has no bindings rather than stale ones.
    controller.activity_running = false;
    controller.refresh(format!("{ROW}no-such-device"), Some(&room()), 2);
    assert!(controller.binding(Button::Power, Gesture::Short).is_none());
}

/// Walk the one transport that a device has, over the network.
fn over_the_network(d: &Device, command: &str, function: Function) -> Result<Outcome, Reason> {
    let walk = Walk::begin(vec![Offer { transport: Transport::Ip, supported: true }])?;
    assert!(matches!(walk.transport(), Transport::Ip));
    match send_network(&job(d, command, function), Stage::Start, Event::Begin { kept: false }) {
        Step::Finish { result, .. } => match walk.answer(result, true) {
            WalkStep::Done(result) => result,
            WalkStep::Try(_) => panic!("there is no other transport"),
        },
        step => panic!("{step:?}"),
    }
}

#[test]
fn every_key_on_a_receiver_waiting_for_its_package_says_so() {
    let config = room();
    let receiver = device(&config, "avr-legacy");
    // Its row still takes the keys, so a press is answered and not lost.
    let bound = keys(&row_bindings(receiver));
    assert_eq!(bound.len(), 4);
    for (_, command) in bound.into_iter().chain([
        (Button::Other(398), text("input:SAT/CBL")),
        (Button::Other(398), text("power-on")),
    ]) {
        let error = match execute_with_input(true, Some(receiver), &command, true) {
            Plan::Walk => over_the_network(receiver, &command, Function::Other).unwrap_err(),
            Plan::PowerToggle => {
                match power_toggle(receiver, PowerStage::Start, PowerEvent::Begin) {
                    PowerStep::Finish(result) => result.unwrap_err(),
                    PowerStep::Send { word, stage } => {
                        let sent = over_the_network(receiver, word.name(), Function::Toggle);
                        let event = PowerEvent::Sent(sent.map(|_| ()));
                        match power_toggle(receiver, stage, event) {
                            PowerStep::Finish(result) => result.unwrap_err(),
                            step => panic!("{step:?}"),
                        }
                    }
                    step => panic!("{step:?}"),
                }
            }
            plan => panic!("{plan:?}"),
        };
        assert_eq!(error.text(HINT), "Needs the Denon package", "{command}");
    }
}

fn silent_status() -> PluginStatus {
    PluginStatus { on: None, muted: None, volume: None, volume_db: None, light: None, cover: None }
}

#[test]
fn a_package_status_fills_the_volume_card_in_decibels_percent_or_muted() {
    let name = text("Theater AVR");
    let card = |status| plugin_volume_reading(&name, &status, None);
    let reading = |tenths| Some(VolumeDb::Reading { tenths });
    let db = card(PluginStatus { volume_db: reading(-415), ..silent_status() }).unwrap();
    assert_eq!(
        (db.text.text().as_str(), db.level, db.target.as_str()),
        ("-41.5 dB", -1, "Theater AVR")
    );
    let minimum =
        card(PluginStatus { volume_db: Some(VolumeDb::Minimum), ..silent_status() }).unwrap();
    assert_eq!(minimum.text.text(), "Minimum");
    let muted = card(PluginStatus {
        muted: Some(true),
        volume_db: reading(-300),
        ..silent_status()
    })
    .unwrap();
    assert_eq!(muted.text.text(), "Muted");
    // With the range that the package declares, the same readings fill the bar.
    let scale = Some(DbScale { min: -800, max: 180, step: 5 });
    let bar = plugin_volume_reading(
        &name,
        &PluginStatus { volume_db: reading(-415), ..silent_status() },
        scale,
    )
    .unwrap();
    assert_eq!((bar.text.text().as_str(), bar.level), ("-41.5 dB", 39));
    let low = plugin_volume_reading(
        &name,
        &PluginStatus { volume_db: Some(VolumeDb::Minimum), ..silent_status() },
        scale,
    );
    assert_eq!(low.unwrap().level, 0);
    let percent = card(PluginStatus { volume: Some(37), ..silent_status() }).unwrap();
    assert_eq!((percent.level, percent.text.text().as_str()), (37, ""));
    assert!(matches!(percent.text, VolumeText::Nothing));
    assert!(card(PluginStatus { on: Some(true), ..silent_status() }).is_none());
}

fn ir_device() -> Device {
    let mut tv = bare_device("tv", "TV");
    tv.ir = true;
    tv
}

/// Whether a command is among those that have a code.
fn has_code(codes: &[&str], id: &str) -> bool {
    let codes: Vec<String> = codes.iter().map(|c| text(c)).collect();
    assigned(&codes, &Command { id: text(id), function: Function::Other })
}

/// A key by infrared, up to the frame: whether it is assigned, and how sending
/// it goes where it is.
fn by_infrared(
    tv: &Device,
    toggles: &mut Toggles,
    repeat: bool,
    assigned: bool,
    current: bool,
    sent: Result<bool, &str>,
) -> (Option<bool>, Result<bool, Reason>) {
    let first = try_device_ir(Some(tv), toggles, repeat, IrEvent::Begin { current });
    match first {
        IrStep::Load => {}
        IrStep::Done(result) => return (None, result),
        step => panic!("{step:?}"),
    }
    match try_device_ir(Some(tv), toggles, repeat, IrEvent::Loaded { assigned, current }) {
        IrStep::Encode { toggle } => {
            let event = IrEvent::Encoded { toggle, current };
            match try_device_ir(Some(tv), toggles, repeat, event) {
                IrStep::Transmit { toggle } => {
                    let event = match sent {
                        Ok(sent) => IrEvent::Transmitted { toggle, sent },
                        Err(why) => IrEvent::Failed(text(why)),
                    };
                    match try_device_ir(Some(tv), toggles, repeat, event) {
                        IrStep::Done(result) => (Some(toggle), result),
                        step => panic!("{step:?}"),
                    }
                }
                IrStep::Done(result) => (None, result),
                step => panic!("{step:?}"),
            }
        }
        IrStep::Done(result) => (None, result),
        step => panic!("{step:?}"),
    }
}

#[test]
fn supplemental_ir_routes_only_exact_assignments_and_never_falls_back_on_error() {
    let tv = ir_device();
    let mut toggles = Toggles::new();
    let has = |id: &str| has_code(&["toggle", "volume-up"], id);
    // Power on must not use toggle, and what is unassigned stays on the network.
    for command in ["power-on", "volume-down", "", "toggl", "toggle ", "TOGGLE"] {
        let (frame, result) = by_infrared(&tv, &mut toggles, false, has(command), true, Ok(true));
        assert!(frame.is_none());
        assert!(matches!(result, Ok(false)));
    }
    let up = has("volume-up");
    let (frame, result) = by_infrared(&tv, &mut toggles, false, up, true, Ok(true));
    assert!(frame.is_some());
    assert!(matches!(result, Ok(true)));
    let (_, result) = by_infrared(&tv, &mut toggles, false, up, true, Err("TX failure"));
    assert_eq!(result.unwrap_err().text(HINT), "TX failure");
}

#[test]
fn infrared_discrete_power_never_falls_back_to_toggle() {
    let tv = ir_device();
    let mut toggles = Toggles::new();
    let has = |id: &str| has_code(&["toggle", "volume-up"], id);
    for command in ["toggle", "volume-up"] {
        let (_, result) = by_infrared(&tv, &mut toggles, false, has(command), true, Ok(true));
        assert!(ir_answer(result, &text(command)).is_ok());
    }
    for command in ["power-on", "power-off"] {
        let (_, result) = by_infrared(&tv, &mut toggles, false, has(command), true, Ok(true));
        match ir_answer(result, &text(command)) {
            Err(Failure::Unavailable(why)) => {
                assert!(why.text(HINT).contains("No IR code assigned"))
            }
            other => panic!("{other:?}"),
        }
    }
}

#[test]
fn infrared_actions_preserve_rc_toggle_and_exact_assignment() {
    let tv = ir_device();
    let mut toggles = Toggles::new();
    let has = |id: &str| has_code(&["ok"], id);
    let (first, _) = by_infrared(&tv, &mut toggles, false, has("ok"), true, Ok(true));
    let (next, _) = by_infrared(&tv, &mut toggles, false, has("ok"), true, Ok(true));
    assert_eq!((first, next), (Some(false), Some(true)));
    let (back, result) = by_infrared(&tv, &mut toggles, false, has("back"), true, Ok(true));
    assert_eq!(back, None);
    assert!(ir_answer(result, &text("back")).is_err());
}

#[test]
fn held_ir_presses_keep_toggle_and_only_successful_new_presses_advance_it() {
    let tv = ir_device();
    let mut toggles = Toggles::new();
    let mut frames = Vec::new();
    for repeat in [false, true, true, false] {
        let (frame, result) = by_infrared(&tv, &mut toggles, repeat, true, true, Ok(true));
        assert!(matches!(result, Ok(true)));
        frames.push(frame.unwrap());
    }
    assert_eq!(frames[0], frames[1]);
    assert_eq!(frames[1], frames[2]);
    assert_ne!(frames[2], frames[3]);
    let before = toggles.sent.clone();
    let (_, failed) = by_infrared(&tv, &mut toggles, false, true, true, Err("TX failed"));
    assert!(failed.is_err());
    assert_eq!(toggles.sent, before);
    let (_, stale) = by_infrared(&tv, &mut toggles, false, true, true, Ok(false));
    assert!(stale.is_ok());
    assert_eq!(toggles.sent, before);
    let (frame, dropped) = by_infrared(&tv, &mut toggles, false, true, false, Ok(true));
    assert!(frame.is_none(), "stale command sent");
    assert!(dropped.is_ok());
    assert_eq!(toggles.sent, before);
    let mut other = ir_device();
    other.id = text("other");
    let (frame, _) = by_infrared(&other, &mut toggles, false, true, true, Ok(true));
    assert_eq!(frame, Some(frames[0]));
}

fn fixture() -> Controller {
    Controller {
        context: text("watch"),
        version: 0,
        bindings: vec![],
        pending: vec![],
        replay: VecDeque::new(),
        generation: 1,
        dropped: false,
        activity_running: false,
        hold: 0,
        screen_device: None,
    }
}

const OK: Button = Button::Other(353);

fn press(code: u16, released: bool) -> Press {
    let button = match code {
        115 => Button::VolumeUp,
        353 => OK,
        code => Button::Other(code),
    };
    Press { code, button: Some(button), released, repeat: false, tag: 0 }
}

fn binding(gesture: Gesture, command: &str) -> Binding {
    Binding { button: OK, gesture, action: Some(action("player", command)) }
}

fn volume_up() -> Vec<Binding> {
    vec![Binding {
        button: Button::VolumeUp,
        gesture: Gesture::Short,
        action: Some(action("tv", "volume-up")),
    }]
}

/// Press a key, with a queue of eight for what it sends.
fn send(c: &mut Controller, p: &Press, now: u64, queue: &mut Vec<Request>) -> bool {
    let fired = c.handle_press(p, now);
    if let Some(request) = fired.request {
        let room = queue.len() < 8;
        c.queued(request.repeat, room);
        if room {
            queue.push(request);
        }
    }
    fired.taken
}

#[test]
fn config_change_refreshes_active_bindings_and_invalidates_queued_work() {
    let mut c = fixture();
    let config = |device: &str, command: &str| {
        let mut config = empty_config();
        config.activities.push(Activity {
            id: text("watch"),
            name: text("Watch"),
            room: text("room"),
            source: None,
            glyph: 0,
            buttons: vec![Binding {
                button: OK,
                gesture: Gesture::Short,
                action: Some(action(device, command)),
            }],
            pages: vec![],
        });
        config
    };
    let original = config("player", "ok");
    let mut queue = vec![];
    c.refresh(text("watch"), Some(&original), 1);
    send(&mut c, &press(353, false), 0, &mut queue);
    let queued = queue.pop().unwrap();
    let old_generation = c.generation;
    c.refresh(text("watch"), Some(&original), 1);
    assert_eq!(c.generation, old_generation);
    c.pending.push(Pending { down: press(353, false), at: 0, fired: false });
    c.refresh(text("watch"), Some(&config("other-device", "home")), 2);
    assert_ne!(queued.generation, c.generation);
    assert!(c.pending.is_empty());
    send(&mut c, &press(353, false), 0, &mut queue);
    let sent = queue.pop().unwrap().action;
    assert_eq!((sent.device.as_str(), sent.command.as_str()), ("other-device", "home"));
    c.refresh(text("watch"), Some(&empty_config()), 3);
    assert!(c.bindings.is_empty());
}

#[test]
fn physical_repeat_metadata_reaches_the_worker() {
    let mut c = fixture();
    c.bindings = volume_up();
    let mut queue = vec![];
    let mut p = press(115, false);
    send(&mut c, &p, 0, &mut queue);
    assert!(!queue.pop().unwrap().repeat);
    p.repeat = true;
    send(&mut c, &p, 0, &mut queue);
    assert!(queue.pop().unwrap().repeat);
}

#[test]
fn a_press_dropped_by_a_full_queue_is_reported() {
    let mut c = fixture();
    c.bindings = volume_up();
    let mut queue = vec![];
    for _ in 0..8 {
        assert!(send(&mut c, &press(115, false), 0, &mut queue));
    }
    assert!(c.feedback(vec![]).is_none());
    assert!(send(&mut c, &press(115, false), 0, &mut queue));
    match c.feedback(vec![]) {
        Some(Feedback::Error(m)) => assert_eq!(m.text(HINT), "Still sending the last command"),
        other => panic!("{other:?}"),
    }
    assert!(c.feedback(vec![]).is_none());
    assert_eq!(queue.len(), 8);
}

#[test]
fn releasing_a_key_ends_its_hold_so_queued_repeats_can_be_discarded() {
    let mut c = fixture();
    c.bindings = volume_up();
    let mut queue = vec![];
    let mut held = press(115, false);
    send(&mut c, &held, 0, &mut queue);
    held.repeat = true;
    send(&mut c, &held, 0, &mut queue);
    send(&mut c, &held, 0, &mut queue);
    let first: Vec<_> = queue.iter().map(|r| (r.repeat, r.hold)).collect();
    assert_eq!(first, [(false, 0), (true, 0), (true, 0)]);
    // Finger off the key: a repeat that still waits carries the old hold and no
    // longer matches, which is how the lane knows not to send it.
    queue.clear();
    let mut up = press(115, false);
    up.released = true;
    send(&mut c, &up, 0, &mut queue);
    assert_eq!(c.hold, 1);
    send(&mut c, &press(115, false), 0, &mut queue);
    assert_eq!(queue[0].hold, 1);
}

#[test]
fn a_held_key_that_outruns_the_queue_is_not_an_error() {
    let mut c = fixture();
    c.bindings = volume_up();
    let mut queue = vec![];
    // One press, then the hold's repeats arrive faster than anything drains.
    assert!(send(&mut c, &press(115, false), 0, &mut queue));
    let mut held = press(115, false);
    held.repeat = true;
    for _ in 0..20 {
        assert!(send(&mut c, &held, 0, &mut queue), "the key is still consumed");
    }
    assert!(c.feedback(vec![]).is_none(), "surplus repeats are dropped quietly");
    assert_eq!(queue.len(), 8);
    // A fresh press with no room is still worth telling.
    queue.clear();
    for _ in 0..8 {
        send(&mut c, &held, 0, &mut queue);
    }
    assert!(send(&mut c, &press(115, false), 0, &mut queue));
    match c.feedback(vec![]) {
        Some(Feedback::Error(m)) => assert_eq!(m.text(HINT), "Still sending the last command"),
        other => panic!("{other:?}"),
    }
}

#[test]
fn short_and_long_are_mutually_exclusive_even_across_a_slow_frame() {
    let mut c = fixture();
    let mut queue = vec![];
    c.bindings = vec![binding(Gesture::Short, "ok"), binding(Gesture::Long, "home")];
    assert!(send(&mut c, &press(353, false), 0, &mut queue));
    assert!(queue.is_empty());
    send(&mut c, &press(353, true), 1, &mut queue);
    assert_eq!(queue.pop().unwrap().action.command, "ok");
    assert!(queue.is_empty());
    send(&mut c, &press(353, false), 1000, &mut queue);
    send(&mut c, &press(353, true), 1000 + HOLD_MS, &mut queue);
    assert_eq!(queue.pop().unwrap().action.command, "home");
    assert!(queue.is_empty());
    send(&mut c, &press(353, false), 5000, &mut queue);
    c.pending[0].fired = true;
    let fired = c.fire(OK, Gesture::Long, false, 5000);
    assert_eq!(fired.request.unwrap().action.command, "home");
    send(&mut c, &press(353, true), 5001, &mut queue);
    assert!(queue.is_empty());
}

#[test]
fn only_a_short_tap_replays_default_when_long_is_overridden() {
    let mut c = fixture();
    let mut queue = vec![];
    c.bindings = vec![binding(Gesture::Long, "home")];
    send(&mut c, &press(353, false), 0, &mut queue);
    send(&mut c, &press(353, true), 1, &mut queue);
    assert_eq!(c.replay.len(), 2);
    assert!(queue.is_empty());
    c.replay.clear();
    send(&mut c, &press(353, false), 1000, &mut queue);
    send(&mut c, &press(353, true), 1000 + HOLD_MS, &mut queue);
    assert!(c.replay.is_empty());
    assert_eq!(queue.pop().unwrap().action.command, "home");
}

#[test]
fn disabled_buttons_and_nonrepeatable_actions_do_not_send_commands() {
    let mut c = fixture();
    let mut queue = vec![];
    c.bindings =
        vec![Binding { button: Button::VolumeUp, gesture: Gesture::Short, action: None }];
    assert!(send(&mut c, &press(115, false), 0, &mut queue));
    assert!(queue.is_empty());
    c.bindings[0].action = Some(action("tv", "mute"));
    let mut p = press(115, false);
    p.repeat = true;
    send(&mut c, &p, 0, &mut queue);
    assert!(queue.is_empty());
    p.repeat = false;
    send(&mut c, &p, 0, &mut queue);
    assert_eq!(queue.pop().unwrap().action.command, "mute");
}

#[test]
fn matter_devices_dispatch_instead_of_reporting_an_unsupported_integration() {
    let mut lamp = bare_device("lamp", "Lamp");
    lamp.network = Some(Integration::Matter { device: text("fabric/1/1") });
    for (command, function) in [
        ("on", Function::On),
        ("off", Function::Off),
        ("toggle", Function::Toggle),
        ("dim:30", Function::Dim(30)),
    ] {
        assert!(matches!(execute_with_input(true, Some(&lamp), command, true), Plan::Walk));
        let walk =
            Walk::begin(vec![Offer { transport: Transport::Ip, supported: true }]).unwrap();
        let work = job(&lamp, command, function);
        let stage = match send_network(&work, Stage::Start, Event::Begin { kept: false }) {
            Step::Do { call, stage } => {
                assert!(matches!(
                    call,
                    Call::MatterPower(_) | Call::MatterBrightness(30) | Call::MatterToggleOrOn
                ));
                stage
            }
            step => panic!("{command}: {step:?}"),
        };
        // No fabric here, so the fleet refuses the connection. The point is that
        // the dispatch reaches Matter at all.
        let refused = Event::Failed(text("Matter connection was removed"));
        match send_network(&work, stage, refused) {
            Step::Finish { result, .. } => match walk.answer(result, true) {
                WalkStep::Done(Err(error)) => {
                    assert_eq!(error.text(HINT), "Matter connection was removed", "{command}");
                }
                step => panic!("{command}: {step:?}"),
            },
            step => panic!("{command}: {step:?}"),
        }
    }
}

#[test]
fn a_key_walks_the_transport_order_and_skips_a_bluetooth_tv_that_is_not_linked() {
    let mut bt_only = bare_device("bt-only", "Bedroom TV");
    bt_only.bluetooth = Some(Bond { address: text("44:27:45:4E:33:25") });
    let mut lg = bare_device("lg", "LG TV");
    lg.bluetooth = Some(Bond { address: text("44:27:45:4E:33:25") });
    lg.network = Some(Integration::WebOs);
    lg.connection = Some(text("lg"));
    let bluetooth = |supported| Offer { transport: Transport::Bluetooth, supported };
    // The bond is never the link: a Bluetooth-only television says so, and says
    // nothing about other transports.
    let walk = Walk::begin(vec![bluetooth(true)]).unwrap();
    let failed = send_bluetooth(&bt_only, &None).unwrap_err();
    match walk.answer(Err(failed), true) {
        WalkStep::Done(Err(why)) => {
            assert_eq!(why.text(HINT), "Bedroom TV is not connected over Bluetooth")
        }
        step => panic!("{step:?}"),
    }
    // Power-on is not a Bluetooth key at all, and the device has nothing else.
    assert_eq!(
        Walk::begin(vec![bluetooth(false)]).unwrap_err().text(HINT),
        "Unsupported button function"
    );
    // The LG prefers Bluetooth; with its television not on the link the key
    // falls through to webOS, whose error is what comes back.
    let walk = Walk::begin(vec![
        bluetooth(true),
        Offer { transport: Transport::Ip, supported: true },
    ])
    .unwrap();
    let failed = send_bluetooth(&lg, &None).unwrap_err();
    let walk = match walk.answer(Err(failed), true) {
        WalkStep::Try(walk) => walk,
        step => panic!("{step:?}"),
    };
    assert!(matches!(walk.transport(), Transport::Ip));
    let work = job(&lg, "volume-up", Function::VolumeUp);
    let mut stage = Stage::Start;
    let mut event = Event::Begin { kept: false };
    let result = loop {
        match send_network(&work, stage, event) {
            Step::Do { stage: next, .. } => {
                stage = next;
                event = Event::Failed(text("No credentials"));
            }
            Step::Finish { result, .. } => break result,
            Step::Ignore => panic!("the event was not expected"),
        }
    };
    match walk.answer(result, true) {
        WalkStep::Done(Err(why)) => {
            let error = why.text(HINT);
            assert!(!error.contains("Bluetooth"), "{error}");
            assert!(!error.is_empty());
        }
        step => panic!("{step:?}"),
    }
    assert!(
        matches!(couch_gui::commands::unreachable(text("gone")), Failure::Unavailable(m) if m.text(HINT) == "gone")
    );
}

fn sentence(code: PluginCode) -> String {
    format!("{code:?} sentence")
}

fn said(code: PluginCode, line: Option<&str>) -> PluginFailure {
    PluginFailure { code, sentence: sentence(code), reason: line.map(text) }
}

#[test]
fn a_package_reason_changes_what_is_said_and_never_which_transport_is_tried() {
    for code in [
        PluginCode::Invalid,
        PluginCode::Unsupported,
        PluginCode::Incompatible,
        PluginCode::Protocol,
        PluginCode::Transport,
        PluginCode::Timeout,
        PluginCode::Busy,
        PluginCode::Expired,
        PluginCode::Rejected,
        PluginCode::Unpaired,
    ] {
        let falls_through = matches!(
            code,
            PluginCode::Transport | PluginCode::Timeout | PluginCode::Busy | PluginCode::Expired
        );
        let plain = plugin_failure(said(code, None));
        let worded = plugin_failure(said(code, Some("The TV is locked")));
        // The panel does no pairing of its own: `Unpaired` keeps its own second
        // line, the browser hint, never the package's.
        let (bare, full) = if code == PluginCode::Unpaired {
            let both = format!("{}\n{HINT}", sentence(code));
            (both.clone(), both)
        } else {
            (sentence(code), format!("{}\nThe TV is locked", sentence(code)))
        };
        for (failure, expected) in [(plain, bare), (worded, full)] {
            match failure {
                Failure::Unavailable(why) => {
                    assert!(falls_through, "{code:?}");
                    assert_eq!(why.text(HINT), expected);
                }
                Failure::Command(why) => {
                    assert!(!falls_through, "{code:?}");
                    assert_eq!(why.text(HINT), expected);
                }
            }
        }
    }
    // An empty line is no line.
    match plugin_failure(said(PluginCode::Rejected, Some("  "))) {
        Failure::Command(why) => assert_eq!(why.text(HINT), sentence(PluginCode::Rejected)),
        other => panic!("{other:?}"),
    }
}

#[test]
fn a_long_binding_is_remembered_so_the_worker_can_say_how_the_key_was_pressed() {
    let mut c = fixture();
    let mut queue = vec![];
    c.bindings = volume_up();
    c.bindings.push(binding(Gesture::Long, "home"));
    let mut p = press(115, false);
    send(&mut c, &p, 0, &mut queue);
    let tap = queue.pop().unwrap();
    assert_eq!(key_phase(tap.gesture, tap.repeat), KeyPhase::Tap);
    p.repeat = true;
    send(&mut c, &p, 0, &mut queue);
    let held = queue.pop().unwrap();
    assert_eq!(key_phase(held.gesture, held.repeat), KeyPhase::Repeat);
    let long = c.fire(OK, Gesture::Long, false, 0).request.unwrap();
    assert_eq!(long.action.command, "home");
    assert_eq!(key_phase(long.gesture, long.repeat), KeyPhase::LongPress);
}

#[test]
fn an_abandoned_sonos_press_keeps_the_session_and_a_silent_player_loses_it() {
    // The deadline and an unknown word are decided here, not by the player.
    assert!(!session_is_suspect(&SonosError::Cancelled));
    assert!(!session_is_suspect(&SonosError::Command));
    for error in [
        SonosError::Transport,
        SonosError::Response,
        SonosError::Unsupported,
        SonosError::Http(503),
        SonosError::Api,
        SonosError::NotCoordinator,
    ] {
        assert!(session_is_suspect(&error), "{error:?}");
    }
}

#[test]
fn power_says_what_it_observed() {
    let mut tv = bare_device("avr-package", "Receiver");
    tv.network = Some(plugin("avr-package"));
    assert!(matches!(
        power_toggle(&tv, PowerStage::Start, PowerEvent::Begin),
        PowerStep::AskPackage
    ));
    let step = power_toggle(&tv, PowerStage::Asking, PowerEvent::Observed(Some(true)));
    let stage = match step {
        PowerStep::Send { word, stage } => {
            assert_eq!(word.name(), "power-off");
            stage
        }
        step => panic!("{step:?}"),
    };
    match power_toggle(&tv, stage, PowerEvent::Sent(Ok(()))) {
        PowerStep::Finish(Ok(outcome)) => {
            let notice = outcome.notice.unwrap();
            assert_eq!(notice.target, "Receiver");
            assert_eq!(notice.value, PowerValue::Off);
        }
        step => panic!("{step:?}"),
    }
}

#[test]
fn a_replayed_press_comes_back_in_order() {
    let mut c = fixture();
    let mut queue = vec![];
    c.bindings = vec![binding(Gesture::Long, "home")];
    send(&mut c, &press(353, false), 0, &mut queue);
    send(&mut c, &press(353, true), 1, &mut queue);
    assert!(!c.next_replay().unwrap().released);
    assert!(c.next_replay().unwrap().released);
    assert!(c.next_replay().is_none());
}

#[test]
fn the_keys_follow_the_screen() {
    let config = room();
    let screen = |player: bool, active: &str, light: bool, index: i32| Screen {
        player_shown: player,
        tv_shown: false,
        active_activity: text(active),
        light_shown: light,
        chooser_shown: false,
        light_room: text("living"),
        light_index: index,
        activity_running: true,
    };
    let mut c = Controller::new();
    c.sync_context(&screen(true, "movie", false, -1), Some(&config), 4);
    assert_eq!((c.context.as_str(), c.version, c.activity_running), ("movie", 4, true));
    // A device's own screen has the keys of its row.
    c.sync_context(&screen(true, "device:lg", false, -1), Some(&config), 4);
    assert_eq!(c.context, "row:lg");
    assert!(!c.bindings.is_empty());
    c.set_screen_device(Some(text("avr-package")));
    c.sync_context(&screen(true, "", false, -1), Some(&config), 4);
    assert_eq!(c.context, "row:avr-package");
    // On a room's list the highlighted row has them, where it has any.
    c.sync_context(&screen(false, "", true, 2), Some(&config), 4);
    assert_eq!(c.context, "row:lg");
    c.sync_context(&screen(false, "", true, 4), Some(&config), 4);
    assert_eq!((c.context.as_str(), c.bindings.len()), ("", 0));
    let generation = c.generation;
    c.sync_context(&screen(false, "", true, 4), Some(&config), 4);
    assert_eq!(c.generation, generation);
}
