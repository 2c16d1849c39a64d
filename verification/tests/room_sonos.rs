use couch_gui::media_player::Source;
use couch_gui::model::{Activity, Config, Device, Icon, Integration, Room, RowKey, RowKeys};
use couch_gui::room_sonos::{
    describe, next_job, operation, target, Above, Answer, Call, Controller, Feedback, Input, Op,
    Report, Request, Target, Turn, Worker, CARD_MS, CHOOSER_TITLE, VOLUME_CARD_MS, VOLUME_STEP,
};
use couch_gui::sonos::SonosError;
use std::collections::VecDeque;

#[allow(dead_code)]
fn text(s: &str) -> String {
    s.to_string()
}

#[allow(dead_code)]
fn no_keys() -> RowKeys {
    let none = RowKey { supported: false, repeats: false };
    RowKeys {
        volume_up: none,
        volume_down: none,
        mute: none,
        toggle: false,
        power_on: false,
        power_off: false,
        power_repeats: false,
    }
}

#[allow(dead_code)]
fn bare_device(id: &str, name: &str) -> Device {
    Device {
        id: text(id),
        name: text(name),
        icon: Icon::Other(0),
        connection: None,
        integration: None,
        network: None,
        identity: None,
        component: None,
        ir: false,
        bluetooth: None,
        can_toggle: false,
        player: false,
        has_screen: false,
        keys: no_keys(),
    }
}

#[allow(dead_code)]
fn room_of(id: &str, name: &str, devices: Vec<Device>) -> Room {
    Room {
        id: text(id),
        name: text(name),
        icon: Icon::Other(0),
        summary: String::new(),
        detail: String::new(),
        devices,
    }
}

#[allow(dead_code)]
fn empty_config() -> Config {
    Config {
        areas: vec![],
        connections: vec![],
        rooms: vec![],
        activities: vec![],
        scenes: vec![],
    }
}

#[test]
fn volume_keys_repeat_but_skips_and_mute_do_not() {
    assert!(matches!(operation("volume-up", true), Some(Op::Volume(VOLUME_STEP))));
    assert!(matches!(operation("volume-down", false), Some(Op::Volume(d)) if d == -VOLUME_STEP));
    assert!(matches!(operation("next", false), Some(Op::Skip(true))));
    assert!(matches!(operation("previous", false), Some(Op::Skip(false))));
    assert!(matches!(operation("mute", false), Some(Op::ToggleMute)));
    assert!(operation("next", true).is_none());
    assert!(operation("previous", true).is_none());
    assert!(operation("mute", true).is_none());
    assert!(operation("power", false).is_none());
}

fn kitchen() -> Target {
    Target { id: text("a"), name: text("Kitchen"), host: 0xC000_0201 }
}

fn request(op: Op) -> Request {
    Request { generation: 7, target: kitchen(), op }
}

#[test]
fn a_held_volume_key_becomes_one_bounded_write_and_other_work_keeps_its_turn() {
    let mut queue = VecDeque::new();
    // Fifteen repeats of one held key, then a mute press behind them.
    for _ in 0..15 {
        queue.push_back(request(Op::Volume(VOLUME_STEP)));
    }
    queue.push_back(request(Op::ToggleMute));
    let mut seen = Vec::new();
    while let Some(request) = next_job(&mut queue) {
        assert_eq!(request.generation, 7);
        seen.push(match request.op {
            Op::Volume(d) => format!("volume {d}"),
            Op::ToggleMute => text("mute"),
            _ => text("other"),
        });
    }
    assert_eq!(seen, ["volume 20", "mute"]);
}

#[test]
fn presses_for_another_speaker_or_room_are_not_summed() {
    let mut queue = VecDeque::new();
    queue.push_back(request(Op::Volume(2)));
    queue.push_back(request(Op::Volume(-2)));
    queue.push_back(Request { generation: 8, ..request(Op::Volume(2)) });
    let mut other = kitchen();
    other.host = 5;
    queue.push_back(Request { target: other, ..request(Op::Volume(2)) });
    assert!(matches!(next_job(&mut queue).unwrap().op, Op::Volume(0)));
    assert_eq!(queue.len(), 2);
    assert!(matches!(next_job(&mut queue).unwrap().op, Op::Volume(2)));
    assert_eq!(next_job(&mut queue).unwrap().target.host, 5);
    assert!(next_job(&mut queue).is_none());
}

#[test]
fn grouped_members_and_unreachable_speakers_get_card_sized_wording() {
    let grouped = describe(
        "Kitchen",
        &SonosError::NotCoordinator { coordinator: text("Living room") },
    );
    assert_eq!(
        (grouped.name.as_str(), grouped.caption.as_str(), grouped.volume),
        ("Control playback on Living room", "Kitchen is grouped", None)
    );
    let gone = describe("Kitchen", &SonosError::Transport);
    assert_eq!(
        (gone.name.as_str(), gone.caption.as_str()),
        ("Cannot reach the speaker", "Kitchen")
    );
    let http = describe("Kitchen", &SonosError::Other { sentence: text("Sonos HTTP error 500") });
    assert_eq!(
        (http.name.as_str(), http.caption.as_str()),
        ("Sonos HTTP error 500", "Kitchen")
    );
    let empty = describe(
        "Kitchen",
        &SonosError::Api { code: text("ERROR_PLAYBACK_NO_CONTENT"), sentence: text("x") },
    );
    assert_eq!(empty.name, "Sonos found nothing to play there");
}

fn den() -> Config {
    let mut config = empty_config();
    let mut lamp = bare_device("lamp", "Lamp");
    lamp.integration = Some(Integration::Hue { light_id: text("1") });
    let mut speaker = bare_device("speaker", "Den Sonos");
    speaker.integration = Some(Integration::Sonos { host: text("192.0.2.9") });
    let mut broken = bare_device("broken", "Broken");
    broken.integration = Some(Integration::Sonos { host: text("speaker.lan") });
    config.rooms.push(room_of("den", "Den", vec![lamp, speaker, broken]));
    config
}

#[test]
fn only_sonos_rows_of_the_open_room_are_targets() {
    let config = den();
    assert!(target(&config, "den", 0).is_none());
    let speaker = target(&config, "den", 1).unwrap();
    assert_eq!((speaker.name.as_str(), speaker.host), ("Den Sonos", 0xC000_0209));
    assert!(target(&config, "den", 2).is_none(), "its address is no address");
    assert!(target(&config, "den", 3).is_none());
    assert!(target(&config, "attic", 1).is_none());
}

const CLEAR: Above = Above { chooser: false, sources: false, covered: false };
const PICKER: Above = Above { chooser: true, sources: true, covered: false };

fn in_the_den() -> Controller {
    let mut c = Controller::new();
    assert!(c.follow(true, "den", CLEAR, 0));
    c
}

fn source() -> Source {
    Source { id: text("4"), name: text("Morning Jazz"), detail: text("Apple Music") }
}

#[test]
fn the_menu_key_finds_sources_and_one_is_started() {
    assert_eq!(CHOOSER_TITLE, "SONOS SOURCES");
    let config = den();
    let mut c = in_the_den();
    c.press(Input::Key { index: 1, command: text("volume-up"), repeat: true });
    let input = c.next_input().unwrap();
    let work = c.handle(input, Some(&config), 0, CLEAR, 0).unwrap();
    assert!(matches!(work.op, Op::Volume(2)));
    assert!(c.next_input().is_none());
    assert!(c.handle(Input::Menu, Some(&config), 0, CLEAR, 0).is_none(), "a lamp has none");
    assert!(c.handle(Input::Menu, Some(&config), -1, CLEAR, 0).is_none());
    assert!(c.handle(Input::Menu, Some(&config), 1, PICKER, 0).is_none());
    let work = c.handle(Input::Menu, Some(&config), 1, CLEAR, 0).unwrap();
    assert!(matches!(work.op, Op::Sources));
    let card = c.card.as_ref().unwrap().card();
    assert_eq!(
        (card.name.as_str(), card.caption.as_str()),
        ("Den Sonos", "Finding Sonos sources…")
    );
    let report = Report::Sources { target: work.target, sources: vec![source()] };
    assert!(c.receive(work.generation, report, CLEAR, 100));
    assert!(c.follow(true, "den", PICKER, 200));
    assert!(c.card.is_none(), "the list is up");
    assert!(c.offered.is_some());
    let work = c.handle(Input::Choose(0), Some(&config), 1, PICKER, 300).unwrap();
    assert!(matches!(work.op, Op::Select { id, .. } if id == "4"));
    let card = c.card.as_ref().unwrap().card();
    assert_eq!(
        (card.name.as_str(), card.caption.as_str()),
        ("Morning Jazz", "Starting on Den Sonos…")
    );
    assert!(c.handle(Input::Choose(0), Some(&config), 1, PICKER, 300).is_none());
}

#[test]
fn leaving_the_room_calls_everything_off() {
    let config = den();
    let mut c = in_the_den();
    let work = c.handle(Input::Menu, Some(&config), 1, CLEAR, 0).unwrap();
    c.press(Input::Menu);
    assert!(!c.follow(false, "den", CLEAR, 10));
    assert!(c.card.is_none() && c.input.is_empty());
    let report = Report::Sources { target: work.target, sources: vec![source()] };
    assert!(!c.receive(work.generation, report, CLEAR, 20), "the answer is another room's");
    assert!(c.offered.is_none());
}

#[test]
fn a_list_over_another_page_is_dropped_and_none_says_so() {
    let mut c = in_the_den();
    let covered = Above { covered: true, ..CLEAR };
    let listed = || Report::Sources { target: kitchen(), sources: vec![source()] };
    assert!(!c.receive(0, listed(), covered, 0));
    assert!(!c.receive(0, listed(), PICKER, 0));
    let none = Report::Sources { target: kitchen(), sources: vec![] };
    assert!(!c.receive(0, none, CLEAR, 0));
    let card = c.card.as_ref().unwrap().card();
    assert_eq!(
        (card.name.as_str(), card.caption.as_str()),
        ("Add favourites in the Sonos app", "No sources for Kitchen")
    );
    assert!(c.receive(0, listed(), CLEAR, 0));
    assert!(c.follow(true, "den", PICKER, 0));
    // Closed without a pick, or another list took the picker over.
    assert!(c.follow(true, "den", Above { chooser: true, ..CLEAR }, 0));
    assert!(c.offered.is_none());
}

#[test]
fn cards_go_when_their_time_is_over() {
    let mut c = in_the_den();
    let volume = Feedback::Volume { speaker: text("Kitchen"), level: 30 };
    assert_eq!(volume.card().volume, Some(30));
    c.receive(0, Report::Card(volume), CLEAR, 0);
    assert_eq!(c.card_until, Some(VOLUME_CARD_MS));
    c.follow(true, "den", CLEAR, VOLUME_CARD_MS - 1);
    assert!(c.card.is_some());
    c.follow(true, "den", CLEAR, VOLUME_CARD_MS);
    assert!(c.card.is_none());
    let muted = Feedback::Muted { speaker: text("Kitchen") };
    assert_eq!(muted.card().caption, "Muted");
    c.receive(0, Report::Card(muted), CLEAR, 0);
    assert_eq!(c.card_until, Some(CARD_MS));
}

#[test]
fn the_worker_keeps_a_connection_until_it_fails() {
    let mut w = Worker::new();
    let step = w.begin(request(Op::Volume(4)), true);
    assert!(matches!(step.call, Call::Connect(0xC000_0201)));
    let step = w.answer(Answer::Connected(Ok(())), true);
    assert!(matches!(step.call, Call::Nudge(4)));
    assert!(matches!(w.answer(Answer::Taken(Ok(())), true).call, Call::Level));
    match w.answer(Answer::Level(Ok(22)), true).reply {
        Some((7, Report::Card(card))) => {
            assert_eq!((card.card().caption.as_str(), card.card().volume), ("Volume", Some(22)))
        }
        other => panic!("{other:?}"),
    }
    assert!(matches!(w.begin(request(Op::ToggleMute), true).call, Call::IsMuted));
    assert!(matches!(w.answer(Answer::Muted(Ok(true)), true).call, Call::SetMuted(false)));
    match w.answer(Answer::Taken(Ok(())), true).reply {
        Some((7, Report::Card(card))) => assert_eq!(card.card().caption, "Unmuted"),
        other => panic!("{other:?}"),
    }
    assert!(matches!(w.begin(request(Op::Skip(true)), true).call, Call::Skip(true)));
    match w.answer(Answer::Taken(Err(SonosError::Transport)), true).reply {
        Some((7, Report::Failed(card))) => {
            assert_eq!(card.card().name, "Cannot reach the speaker")
        }
        other => panic!("{other:?}"),
    }
    assert!(matches!(w.begin(request(Op::Sources), true).call, Call::Connect(_)));
    let refused = SonosError::Other { sentence: text("No route") };
    assert!(matches!(
        w.answer(Answer::Connected(Err(refused)), true).reply,
        Some((7, Report::Failed(_)))
    ));
}

#[test]
fn a_room_that_was_left_shows_nothing() {
    let mut w = Worker { cached: Some(0xC000_0201), ..Worker::new() };
    let step = w.begin(request(Op::Volume(2)), false);
    assert!(step.reply.is_none() && matches!(step.call, Call::Wait));
    w.begin(request(Op::ToggleMute), true);
    let step = w.answer(Answer::Muted(Ok(false)), false);
    assert!(step.reply.is_none() && matches!(step.call, Call::Wait));
    let select = Op::Select { id: text("4"), name: text("Jazz") };
    assert!(matches!(w.begin(request(select), true).call, Call::Select(id) if id == "4"));
    let cancelled = SonosError::Cancelled { sentence: text("x") };
    let step = w.answer(Answer::Taken(Err(cancelled)), true);
    assert!(step.reply.is_none());
    assert_eq!(w.cached, Some(0xC000_0201));
    let select = Op::Select { id: text("4"), name: text("Jazz") };
    w.begin(request(select), true);
    match w.answer(Answer::Taken(Ok(())), true).reply {
        Some((7, Report::Card(card))) => {
            assert_eq!(
                (card.card().name.as_str(), card.card().caption.as_str()),
                ("Jazz", "Playing on Kitchen")
            )
        }
        other => panic!("{other:?}"),
    }
}

#[test]
fn a_turn_takes_every_key_before_the_answers() {
    let config = den();
    let mut c = in_the_den();
    let generation = c.generation;
    let turn = |now| Turn { shown: true, highlighted: 1, above: CLEAR, now };
    let key = |command: &str| Input::Key { index: 1, command: text(command), repeat: false };
    for command in ["volume-up", "no-such-key", "mute"] {
        c.press(key(command));
    }
    c.press(Input::Menu);
    let sources = Report::Sources { target: kitchen(), sources: vec![source()] };
    let reports = VecDeque::from([(generation, sources), (generation + 1, Report::Card(muted()))]);
    let polled = c.poll(turn(100), "den", Some(&config), reports);
    assert!(polled.slides);
    match &polled.requests[..] {
        [a, b, d] => {
            assert!(matches!(a.op, Op::Volume(VOLUME_STEP)));
            assert!(matches!(b.op, Op::ToggleMute));
            assert!(matches!(d.op, Op::Sources));
        }
        other => panic!("{other:?}"),
    }
    assert!(c.input.is_empty() && c.offered.is_some());
    // The answer for another room left the card of the menu key up.
    assert!(matches!(c.card, Some(Feedback::Finding { .. })));
    // A room list that has gone takes neither keys nor answers.
    c.press(key("mute"));
    let gone = Turn { shown: false, ..turn(200) };
    let late = VecDeque::from([(generation, Report::Card(muted()))]);
    let polled = c.poll(gone, "den", Some(&config), late);
    assert!(polled.requests.is_empty() && !polled.slides);
    assert!(c.card.is_none() && c.offered.is_none() && c.input.is_empty());
}

fn muted() -> Feedback {
    Feedback::Muted { speaker: text("Kitchen") }
}

#[test]
fn keys_see_past_the_pinned_activities() {
    let mut config = den();
    let pinned = |id: &str, room: &str| Activity {
        id: text(id),
        name: text(id),
        room: text(room),
        source: None,
        glyph: 0,
        buttons: vec![],
        pages: vec![],
    };
    config.activities = vec![pinned("movie", "den"), pinned("party", "attic")];
    // Row 0 is the activity, row 1 the lamp, and row 2 the speaker.
    for row in [0, 1, 3, 4] {
        assert!(target(&config, "den", row).is_none(), "{row}");
    }
    assert_eq!(target(&config, "den", 2).unwrap().id, "speaker");
    let mut c = in_the_den();
    let key = |index| Input::Key { index, command: text("mute"), repeat: false };
    assert!(c.handle(key(1), Some(&config), 0, CLEAR, 0).is_none());
    let request = c.handle(key(2), Some(&config), 0, CLEAR, 0).unwrap();
    assert_eq!(request.target.id, "speaker");
    assert!(c.handle(Input::Menu, Some(&config), 1, CLEAR, 0).is_none());
    assert_eq!(c.handle(Input::Menu, Some(&config), 2, CLEAR, 0).unwrap().target.id, "speaker");
}
