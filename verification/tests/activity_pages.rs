use couch_gui::activity_pages::{
    answer_event, page_index, plugin_turn, Lease, PageRequest, PageStatus, PageStep, Pages,
    PluginAnswer, PluginEvent, PluginTurn, Turn, Waiting,
};
use couch_gui::commands::{Action, VolumeDb};
use couch_gui::model::{
    Activity, ActivityPage, Config, Device, Icon, Room, RowKey, RowKeys, TypedAction, Widget,
};
use couch_gui::plugin_pages::{
    adjusted_volume, format_db, observed_volume, plugin_command, plugin_pages, status_text,
    Capability, Component, PanelStatus, PluginTarget, PluginView, Selectable, StatusField,
    TileAction, VolumeSchema,
};

#[allow(dead_code)]
fn text(s: &str) -> String {
    s.to_string()
}

#[allow(dead_code)]
fn no_keys() -> RowKeys {
    let none = RowKey { supported: false, repeats: false };
    RowKeys {
        volume_up: none,
        volume_down: none,
        mute: none,
        toggle: false,
        power_on: false,
        power_off: false,
        power_repeats: false,
    }
}

#[allow(dead_code)]
fn bare_device(id: &str, name: &str) -> Device {
    Device {
        id: text(id),
        name: text(name),
        icon: Icon::Other(0),
        connection: None,
        integration: None,
        network: None,
        identity: None,
        component: None,
        ir: false,
        bluetooth: None,
        can_toggle: false,
        player: false,
        has_screen: false,
        keys: no_keys(),
    }
}

#[allow(dead_code)]
fn room_of(id: &str, name: &str, devices: Vec<Device>) -> Room {
    Room {
        id: text(id),
        name: text(name),
        icon: Icon::Other(0),
        summary: String::new(),
        detail: String::new(),
        devices,
    }
}

#[allow(dead_code)]
fn empty_config() -> Config {
    Config {
        areas: vec![],
        connections: vec![],
        rooms: vec![],
        activities: vec![],
        scenes: vec![],
    }
}

fn nothing_read() -> PanelStatus {
    PanelStatus {
        on: None,
        playing: None,
        muted: None,
        volume: None,
        volume_db: None,
        input: None,
        title: None,
    }
}

fn target(label: &str) -> PluginTarget {
    PluginTarget {
        activity: text("Listen"),
        room: text("Living room"),
        device: text("receiver"),
        connection: text("denon"),
        resource: String::new(),
        label: text(label),
        capabilities: vec![],
        volume: None,
        supports_inputs: false,
        presentation: vec![],
    }
}

fn volume_view() -> PluginView {
    let mut target = target("Receiver");
    target.volume = Some(VolumeSchema {
        min_tenths: -800,
        max_tenths: 180,
        step_tenths: 5,
        accepted: (0..=196).map(|n| -800 + 5 * n).collect(),
    });
    target.presentation = vec![Component::VolumeDbControl { label: text("Volume") }];
    PluginView { target, status: nothing_read(), inputs: vec![], volume_draft: None }
}

#[test]
fn volume_draft_requires_explicit_apply_and_preserves_unknown_minimum_and_bounds() {
    let mut view = volume_view();
    assert_eq!(plugin_pages(&view)[0].tiles[0].detail, "Unavailable");
    assert!(!plugin_pages(&view)[0].tiles[1].enabled);
    view.status.volume_db = Some(VolumeDb::Minimum);
    assert_eq!(plugin_pages(&view)[0].tiles[0].detail, "Minimum");
    assert_eq!(observed_volume(&view), None);
    view.volume_draft = adjusted_volume(&view, 1);
    assert_eq!(view.volume_draft, Some(-800));
    let page = plugin_pages(&view).remove(0);
    assert_eq!(page.tiles[0].detail, "Minimum");
    assert!(matches!(page.tiles[1].action, TileAction::SetVolume(-800)));
    assert!(matches!(page.tiles[3].action, TileAction::AdjustVolume(1)));
    assert!(!page.tiles[2].enabled);
    view.volume_draft = Some(180);
    assert!(!plugin_pages(&view)[0].tiles[3].enabled);
    view.status.volume_db = Some(VolumeDb::Reading { tenths: -345 });
    assert_eq!(observed_volume(&view), Some(-345));
    assert_eq!(plugin_pages(&view)[0].tiles[0].detail, "−34.5 dB");
    assert_eq!(format_db(-5), "−0.5 dB");
    view.target.volume = None;
    assert!(!plugin_pages(&view)[0].tiles[1].enabled);
}

#[test]
fn plugin_worker_drops_stale_and_expired_actions_and_never_retries_failure() {
    let current = 2;
    let mut sent = 0;
    let mut events = vec![];
    for (generation, age) in [(1, 0), (2, 1000), (2, 0)] {
        match plugin_turn(generation, current, age, true) {
            PluginTurn::Pass => {}
            PluginTurn::Reply(event) => events.push(event),
            PluginTurn::Run => {
                sent += 1;
                let failed = PluginAnswer::Failed(text("Disconnected after write"));
                events.push(answer_event(true, failed));
            }
        }
    }
    assert_eq!(sent, 1);
    assert_eq!(events.len(), 2);
    let said = |event: &PluginEvent| match event {
        PluginEvent::ActionDone(Some(status)) => status.text(),
        event => panic!("{event:?}"),
    };
    assert!(said(&events[0]).contains("expired"));
    assert!(said(&events[1]).contains("Disconnected"));
}

#[test]
fn plugin_presentation_uses_native_pages_and_live_state() {
    let mut target = target("Community receiver");
    target.capabilities = vec![
        Capability { id: text("power-on"), label: text("Turn on") },
        Capability { id: text("power-off"), label: text("Turn off") },
    ];
    target.supports_inputs = true;
    target.presentation = vec![
        Component::Toggle {
            label: text("Power"),
            state: StatusField::On,
            on: text("power-on"),
            off: text("power-off"),
        },
        Component::InputSelector { label: text("Source") },
    ];
    let mut view = PluginView {
        target,
        status: PanelStatus { on: Some(true), input: Some(text("tv")), ..nothing_read() },
        inputs: vec![Selectable { id: text("tv"), name: text("Television") }],
        volume_draft: None,
    };
    let pages = plugin_pages(&view);
    assert_eq!(pages.len(), 2);
    assert_eq!(pages[0].title, "Power");
    assert_eq!(pages[0].tiles[0].detail, "On");
    assert!(
        matches!(&pages[0].tiles[0].action, TileAction::Toggle { off, .. } if off == "power-off")
    );
    assert_eq!(pages[1].tiles[0].label, "Television");
    assert_eq!(pages[1].tiles[0].detail, "Current input");
    assert!(
        matches!(&pages[1].tiles[0].action, TileAction::Command(command) if command == "input:tv")
    );
    assert_eq!(plugin_command(&pages[0].tiles[0].action, &nothing_read()), None);
    assert_eq!(
        plugin_command(&pages[0].tiles[0].action, &view.status),
        Some(text("power-off"))
    );
    view.status = nothing_read();
    view.inputs = vec![];
    assert!(!plugin_pages(&view)[0].tiles[0].enabled);
}

#[test]
fn stale_plugin_reply_cannot_repaint_a_new_view() {
    let mut pages = Pages::new();
    pages.plugin = Some(PluginView {
        target: target("Receiver"),
        status: nothing_read(),
        inputs: vec![],
        volume_draft: None,
    });
    pages.generation = 2;
    let on = |on| PluginEvent::Status(PanelStatus { on: Some(on), ..nothing_read() });
    assert!(pages.apply_plugin_event(1, on(true)).is_none());
    assert_eq!(pages.plugin.as_ref().unwrap().status.on, None);
    assert_eq!(pages.apply_plugin_event(2, on(false)).unwrap().text(), "Status updated");
    assert_eq!(pages.plugin.as_ref().unwrap().status.on, Some(false));
}

#[test]
fn command_worker_reuses_leases_and_releases_on_close_or_config_change() {
    let mut lease = Lease { generation: 1, version: None };
    let send = |lease: &mut Lease, version, generation| {
        let (turn, dropped) =
            lease.next(generation, Some(Waiting { generation, age: 0, version }));
        assert!(matches!(turn, Turn::Run));
        assert!(!lease.end(generation));
        dropped
    };
    assert!(!send(&mut lease, 7, 1));
    assert!(!send(&mut lease, 7, 1), "two commands share one lease");
    assert!(send(&mut lease, 8, 1), "new config releases old lease");
    let (turn, dropped) = lease.next(2, None);
    assert!(matches!(turn, Turn::Pass));
    assert!(dropped, "idle close needs no extra command");
    assert!(!send(&mut lease, 9, 2));
}

#[test]
fn volume_panel_edits_draft_and_only_apply_sends_typed_request() {
    let config = empty_config();
    let mut pages = Pages::new();
    let mut view = volume_view();
    view.status.volume_db = Some(VolumeDb::Reading { tenths: -345 });
    view.volume_draft = observed_volume(&view);
    pages.plugin = Some(view);
    assert!(matches!(pages.handle(&config, "command", 3), PageStep::Render));
    assert_eq!(pages.plugin.as_ref().unwrap().volume_draft, Some(-340));
    let request = match pages.handle(&config, "command", 1) {
        PageStep::Ask(request) => request,
        step => panic!("{step:?}"),
    };
    assert_eq!(request, PageRequest::Action(TypedAction::SetVolumeDb { tenths: -340 }));
    assert_eq!(pages.request_queued(request, true).text(), "Setting volume…");
    assert!(
        matches!(pages.handle(&config, "command", 1), PageStep::Nothing),
        "busy panel must not duplicate command"
    );
}

#[test]
fn page_navigation_wraps_in_both_directions_and_handles_empty_pages() {
    assert_eq!(page_index(0, -1, 3), 2);
    assert_eq!(page_index(2, 1, 3), 0);
    assert_eq!(page_index(0, 1, 0), 0);
    assert_eq!(page_index(0, -1, 1), 0);
}

#[test]
fn page_navigation_is_exact_at_its_ends() {
    assert_eq!(page_index(5, i32::MIN, 7), ((5i64 + i32::MIN as i64).rem_euclid(7)) as usize);
    assert_eq!(page_index(usize::MAX, 1, 2), 0);
    for delta in -9..10 {
        for page in 0..4 {
            assert_eq!(page_index(page_index(page, delta, 4), -delta, 4), page);
        }
    }
}

fn watching() -> Config {
    let mut config = empty_config();
    let mut kodi = bare_device("living-kodi", "Kodi");
    kodi.has_screen = true;
    config.rooms.push(room_of("living", "Living room", vec![kodi]));
    let tile = |device: &str| Widget {
        label: text("Play / pause"),
        icon: None,
        action: Action {
            device: text(device),
            command: text("play-pause"),
            repeatable: false,
        },
    };
    config.activities.push(Activity {
        id: text("movie"),
        name: text("Watch a movie"),
        room: text("living"),
        source: Some(text("living-kodi")),
        glyph: 0,
        buttons: vec![],
        pages: vec![
            ActivityPage {
                title: text("Playback"),
                widgets: vec![tile("living-kodi"), tile("gone")],
            },
            ActivityPage { title: text("Lighting"), widgets: vec![] },
        ],
    });
    config
}

#[test]
fn an_activitys_tiles_send_their_actions_and_name_their_devices() {
    let config = watching();
    let mut pages = Pages::new();
    assert!(pages.render(&config).is_none());
    pages.open_activity(text("movie"));
    let shown = pages.render(&config).unwrap();
    assert_eq!((shown.title.as_str(), shown.page, shown.count), ("Playback", 0, 2));
    assert!(shown.source);
    assert_eq!(shown.tiles[0].detail, "Kodi");
    assert_eq!(shown.tiles[1].detail, "Device unavailable");
    match pages.handle(&config, "command", 0) {
        PageStep::Send { action, label } => {
            assert_eq!(action.command, "play-pause");
            assert_eq!(pages.command_queued(label, true).text(), "Sending Play / pause…");
        }
        step => panic!("{step:?}"),
    }
    assert!(matches!(pages.handle(&config, "command", 0), PageStep::Nothing));
    assert!(matches!(pages.handle(&config, "command", -1), PageStep::Nothing));
    let generation = pages.generation;
    assert!(pages.command_done(generation + 1, None).is_none());
    let (status, refresh) = pages.command_done(generation, None).unwrap();
    assert_eq!(status.text(), "Command sent");
    assert!(!refresh);
    assert!(matches!(pages.handle(&config, "page", 1), PageStep::Render));
    assert_eq!(pages.render(&config).unwrap().title, "Lighting");
    assert!(matches!(pages.handle(&config, "command", 0), PageStep::Nothing));
    assert!(matches!(pages.handle(&config, "page", -1), PageStep::Render));
    assert_eq!(pages.render(&config).unwrap().title, "Playback");
    let label = text("Play");
    assert_eq!(
        pages.command_queued(label, false).text(),
        "Command worker is busy. Try again."
    );
    pages.close();
    assert!(pages.render(&config).is_none());
    assert_eq!(pages.generation, generation + 1);
}

#[test]
fn opening_a_packaged_device_asks_for_its_state() {
    let mut pages = Pages::new();
    let mut receiver = target("Receiver");
    receiver.supports_inputs = true;
    receiver.resource = text("zone-2");
    let asked = pages.open_plugin(receiver);
    assert_eq!(asked, [PageRequest::Status, PageRequest::Inputs]);
    let work = pages.request_plugin(PageRequest::Status).unwrap();
    assert_eq!((work.connection.as_str(), work.resource.as_deref()), ("denon", Some("zone-2")));
    assert_eq!(work.generation, pages.generation);
    let full = pages.request_queued(PageRequest::Inputs, false);
    assert_eq!(full.text(), "Integration request queue is busy. Try again.");
    assert_eq!(pages.request_queued(PageRequest::Status, true).text(), "Refreshing status…");
    assert_eq!(pages.request_queued(PageRequest::Inputs, true).text(), "Loading inputs…");
    let done = pages.plugin_done(pages.generation, PluginEvent::ActionDone(None));
    let (status, refresh) = done.unwrap();
    assert_eq!(status.text(), "Volume set");
    assert!(refresh);
    let inputs = PluginEvent::Inputs(vec![]);
    let (status, refresh) = pages.plugin_done(pages.generation, inputs).unwrap();
    assert_eq!(status.text(), "Inputs updated");
    assert!(!refresh);
    pages.close();
    assert!(pages.request_plugin(PageRequest::Status).is_none());
}

#[test]
fn a_request_that_expired_or_surprised_says_so() {
    let mut lease = Lease { generation: 3, version: Some(1) };
    let late = Waiting { generation: 3, age: 751, version: 1 };
    match lease.next(3, Some(late)) {
        (Turn::Reply(status), false) => {
            assert_eq!(status.text(), "Command expired while waiting. Try again.")
        }
        other => panic!("{other:?}"),
    }
    let elsewhere = Waiting { generation: 2, age: 0, version: 1 };
    assert!(matches!(lease.next(3, Some(elsewhere)), (Turn::Pass, false)));
    assert!(lease.end(4));
    match plugin_turn(1, 1, 751, false) {
        PluginTurn::Reply(PluginEvent::Error(status)) => {
            assert_eq!(status.text(), "Integration request expired. Try again.")
        }
        other => panic!("{other:?}"),
    }
    match answer_event(false, PluginAnswer::Taken) {
        PluginEvent::Error(status) => {
            assert_eq!(status.text(), "The integration sent an unexpected reply")
        }
        other => panic!("{other:?}"),
    }
    assert!(matches!(
        answer_event(true, PluginAnswer::Other),
        PluginEvent::ActionDone(Some(PageStatus::UnexpectedReply))
    ));
    assert!(matches!(answer_event(true, PluginAnswer::Taken), PluginEvent::ActionDone(None)));
}

#[test]
fn a_status_line_reads_each_field() {
    let status = PanelStatus {
        playing: Some(false),
        muted: Some(true),
        volume: Some(40),
        title: Some(text("News")),
        ..nothing_read()
    };
    for (field, expected) in [
        (StatusField::On, "Unavailable"),
        (StatusField::Playing, "Paused"),
        (StatusField::Muted, "Muted"),
        (StatusField::Volume, "40%"),
        (StatusField::Input, "Unavailable"),
        (StatusField::Title, "News"),
    ] {
        assert_eq!(status_text(&status, field), expected);
    }
}

#[test]
fn a_device_without_controls_still_has_a_page() {
    let view = PluginView {
        target: target("Receiver"),
        status: nothing_read(),
        inputs: vec![],
        volume_draft: None,
    };
    let pages = plugin_pages(&view);
    assert_eq!(pages.len(), 1);
    assert_eq!(pages[0].title, "Receiver");
    assert_eq!(pages[0].tiles[0].label, "Refresh status");
    let mut many = target("Receiver");
    many.capabilities = (0..7)
        .map(|n| Capability { id: format!("c{n}"), label: format!("Command {n}") })
        .collect();
    let view =
        PluginView { target: many, status: nothing_read(), inputs: vec![], volume_draft: None };
    let sizes: Vec<usize> = plugin_pages(&view).iter().map(|p| p.tiles.len()).collect();
    assert_eq!(sizes, [6, 1]);
}
