use couch_gui::kodi_pictures::{
    andrei_rublev, audio_tracks, chapters, show_error, show_idle, show_playing, subtitle_tracks,
};
use couch_gui::media_player::{
    chosen_mode, key, sheet_names, step, Controller, Done, Event, Key, Op, Progress, Request, Source, Target,
    Views, VIEW_TTL_MS,
};
use couch_gui::player_worker::{
    begin_op, outcome, told_op, Answer, Call, OpStep, Reply, Told, Worker,
};
use couch_gui::sonos::{
    clock, describe, kind_text, AfterSkip, ModeChange, Modes, NowPlaying, Problem, Snapshot,
    SonosError, Track, SKIP_READS,
};

use std::collections::VecDeque;

fn text(s: &str) -> String {
    s.to_string()
}

#[test]
fn dpad_walks_the_controls_and_the_sheets() {
    assert_eq!(step(3, 1, 0), 4);
    assert_eq!(step(4, 1, 0), 4);
    assert_eq!(step(3, -1, 0), 2);
    assert_eq!(step(3, 0, -1), 1);
    assert_eq!(step(1, 0, 1), 2);
    assert_eq!(step(3, 0, 1), 6);
    assert_eq!(step(7, 0, 1), 7);
    assert_eq!(step(7, 0, -1), 4);
}

#[test]
fn metadata_line_prefers_both_names_and_never_repeats_one() {
    assert_eq!(couch_gui::sonos::line("Sublime", "Sublime"), "Sublime");
    assert_eq!(couch_gui::sonos::line("Lorde", "Pure Heroine"), "Lorde · Pure Heroine");
    assert_eq!(couch_gui::sonos::line("", "Pure Heroine"), "Pure Heroine");
    assert_eq!(couch_gui::sonos::line("", ""), "");
}

#[test]
fn clocks_read_like_a_player() {
    assert_eq!(clock(0), "0:00");
    assert_eq!(clock(182), "3:02");
    assert_eq!(clock(3725), "1:02:05");
}

#[test]
fn errors_are_sentences_for_the_screen() {
    assert_eq!(
        describe(SonosError::NotCoordinator { coordinator: text("Kitchen") }).text(),
        "Playback is controlled by Kitchen. Open that speaker to change it."
    );
    assert_eq!(describe(SonosError::Transport).text(), "Cannot reach the speaker.");
    let empty = SonosError::Api {
        code: text("ERROR_PLAYBACK_NO_CONTENT"),
        sentence: text("Sonos API error"),
    };
    assert_eq!(describe(empty).text(), "Sonos found nothing to play there.");
    let other = SonosError::Api { code: text("ERROR_X"), sentence: text("Sonos API error") };
    assert_eq!(describe(other).text(), "Sonos API error");
    let http = SonosError::Other { sentence: text("Sonos HTTP error 500") };
    assert_eq!(describe(http).text(), "Sonos HTTP error 500");
}

#[test]
fn a_kind_of_container_is_read_in_words() {
    assert_eq!(kind_text("LINE_IN_Input"), "line in input");
    assert_eq!(kind_text("ÄRZTE"), "ärzte");
    assert_eq!(kind_text(""), "");
}

fn track(name: &str, artist: &str, album: &str, art: &str, ms: Option<u64>) -> Track {
    Track {
        name: text(name),
        artist: text(artist),
        album: text(album),
        image_url: text(art),
        duration_ms: ms,
        service: text("Apple Music"),
    }
}

/// The Lounge speaker playing the second track of an album from a playlist.
fn playing() -> Snapshot {
    Snapshot {
        player: text("RINCON_LOUNGE"),
        player_name: text("Lounge"),
        coordinator: text("RINCON_LOUNGE"),
        coordinator_name: text("Lounge"),
        state: text("PLAYING"),
        position_ms: 74_210,
        modes: Modes::default(),
        can_seek: true,
        now: NowPlaying {
            container: text("Evening"),
            container_type: text("playlist"),
            current: Some(track(
                "Weird Fishes / Arpeggi",
                "Radiohead",
                "In Rainbows",
                "weird-fishes",
                Some(318_000),
            )),
            next: Some(track(
                "All I Need",
                "Radiohead",
                "In Rainbows",
                "all-i-need",
                Some(229_000),
            )),
        },
    }
}

fn paused() -> Snapshot {
    Snapshot { state: text("PAUSED"), ..playing() }
}

fn member() -> Snapshot {
    Snapshot {
        coordinator: text("RINCON_KITCHEN"),
        coordinator_name: text("Kitchen"),
        ..paused()
    }
}

fn lounge() -> Target {
    Target {
        device: text("lounge-sonos"),
        name: text("Lounge Sonos"),
        room: text("Living room"),
        host: 0xC000_0209,
    }
}

/// A screen that is open on the Lounge speaker.
fn open(now: Snapshot) -> Controller {
    let mut c = Controller::new(0);
    let request = c.open(lounge(), None, 0);
    assert!(matches!(request, Request::Open { host: 0xC000_0209, known_art: None }));
    assert_eq!(c.screen.group.title.text(), "Connecting to Sonos…");
    c.opened(true, 0);
    c.receive(c.generation, Event::State(Ok(now)), 10);
    c
}

/// What an action sends, and that the worker had room for it.
fn act(c: &mut Controller, action: &str, value: f64) -> Option<Op> {
    let acted = c.action(action, value.to_bits(), false, 100);
    assert!(acted.handled);
    match acted.request {
        Some(Request::Command(op)) => {
            c.commanded(true, 100);
            Some(op)
        }
        Some(request) => panic!("{request:?}"),
        None => None,
    }
}

fn done(c: &mut Controller, done: Result<Done, Problem>) {
    let generation = c.generation;
    c.receive(generation, Event::Done(done), 200);
}

#[test]
fn the_screen_says_what_the_group_plays() {
    let c = open(playing());
    let group = &c.screen.group;
    assert!(group.ready && group.connected && !group.paused && group.can_seek);
    assert_eq!(group.title.text(), "Weird Fishes / Arpeggi");
    assert_eq!(group.line.text(), "Radiohead · In Rainbows");
    assert_eq!(group.progress.elapsed_text(), "1:14");
    assert_eq!(group.progress.remaining_text(), "−4:03");
    assert_eq!(c.screen.room.text(), "Living room");
    let mut radio = paused();
    radio.now.container = text("BBC Radio 6 Music");
    radio.now.current = Some(track("BBC Radio 6 Music", "", "", "6music", None));
    let c = open(radio);
    assert_eq!(c.screen.group.line.text(), "BBC Radio 6 Music");
    assert_eq!(c.screen.group.progress, Progress::Live { read_ms: 74_210, moved_ms: 0 });
    assert_eq!(c.screen.group.progress.remaining_text(), "LIVE");
    let mut tv = paused();
    tv.now = NowPlaying {
        container: text("TV"),
        container_type: text("linein.homeTheater"),
        current: None,
        next: None,
    };
    let c = open(tv.copy());
    assert_eq!(c.screen.group.title.text(), "TV");
    assert_eq!(c.screen.group.line.text(), "linein.hometheater");
    tv.now.container = String::new();
    let c = open(tv);
    assert!(!c.screen.group.ready);
    assert_eq!(
        c.screen.group.title.text(),
        "Lounge is idle.\nPress Sources to play something."
    );
    let c = open(member());
    assert_eq!(c.screen.room.text(), "Living room · Playing from Kitchen");
    assert!(!c.screen.group.can_seek);
}

#[test]
fn the_clock_moves_while_a_track_plays_and_stops_at_its_end() {
    let mut c = open(playing());
    c.tick(1010);
    let timed = |moved_ms| Progress::Timed { read_ms: 74_210, moved_ms, total_ms: 318_000 };
    assert_eq!(c.screen.group.progress, timed(1000));
    assert_eq!(c.screen.group.progress.elapsed_text(), "1:15");
    c.tick(1_000_000);
    assert_eq!(c.screen.group.progress, timed(999_990));
    assert_eq!(c.screen.group.progress.elapsed_text(), "5:18");
    assert_eq!(c.screen.group.progress.remaining_text(), "−0:00");
    let mut c = open(paused());
    c.tick(5000);
    assert_eq!(c.screen.group.progress, timed(0));
}

#[test]
fn keys_send_their_commands_one_at_a_time() {
    let mut c = open(paused());
    assert!(matches!(act(&mut c, "play", 0.0), Some(Op::PlayPause)));
    assert!(act(&mut c, "play", 0.0).is_none(), "another command is out");
    assert!(matches!(c.tick(4000), None), "nothing is read while a command is out");
    done(&mut c, Ok(Done::Quiet));
    assert!(matches!(act(&mut c, "seek", 50.0), Some(Op::Seek(159_000))));
    done(&mut c, Ok(Done::Quiet));
    assert!(matches!(act(&mut c, "chapter-step", -1.0), Some(Op::Skip(false))));
    done(&mut c, Ok(Done::Quiet));
    assert!(matches!(act(&mut c, "volume", -99.0), Some(Op::Volume(-20))));
    done(&mut c, Ok(Done::Volume(23)));
    assert_eq!(c.screen.volume, Some(23));
    assert!(matches!(act(&mut c, "volume", 0.0), Some(Op::Volume(5))));
    done(&mut c, Ok(Done::Quiet));
    assert!(matches!(act(&mut c, "mute", 0.0), Some(Op::ToggleMute)));
    done(&mut c, Ok(Done::Muted));
    assert_eq!(c.screen.notice.text(), "Muted");
    c.tick(4200);
    assert_eq!(c.screen.notice.text(), "");
    assert_eq!(c.screen.volume, None);
    let held = c.action("next", 0, true, 300);
    assert!(held.handled && held.request.is_none(), "a skip never repeats");
    let full = c.action("next", 0, false, 300);
    assert!(full.request.is_some());
    c.commanded(false, 300);
    assert_eq!(c.screen.notice.text(), "Connection busy. Try again.");
    assert!(!c.busy);
}

#[test]
fn the_dpad_selects_and_presses_controls() {
    let mut c = open(paused());
    assert!(act(&mut c, "Input.Left", 0.0).is_none());
    assert_eq!(c.screen.selected, 2);
    assert!(matches!(act(&mut c, "Input.Select", 0.0), Some(Op::Skip(false))));
    done(&mut c, Ok(Done::Quiet));
    act(&mut c, "Input.Down", 0.0);
    assert_eq!(c.screen.selected, 5);
    assert!(matches!(act(&mut c, "Input.Select", 0.0), Some(Op::Sources)));
    assert_eq!(c.screen.panel, 1);
    assert_eq!(c.screen.detail.text(), "Finding sources…");
    assert!(!c.action("Input.Home", 0, false, 0).handled);
    let back = c.action("Input.Back", 0, false, 0);
    assert!(back.handled && back.focus);
    assert!(!c.action("back", 0, false, 0).handled);
    assert_eq!(key("skip"), Key::Other);
}

#[test]
fn sources_are_listed_and_started() {
    let mut c = open(paused());
    assert!(matches!(act(&mut c, "chapters", 0.0), Some(Op::Sources)));
    let generation = c.generation;
    c.receive(generation, Event::Sources(Ok(vec![])), 0);
    assert_eq!(
        c.screen.detail.text(),
        "No sources: add favourites or playlists in the Sonos app."
    );
    c.receive(generation, Event::Sources(Err(Problem::Unreachable)), 0);
    assert_eq!(c.screen.detail.text(), "Cannot reach the speaker.");
    let jazz = Source { id: text("4"), name: text("Morning Jazz"), detail: text("Apple Music") };
    assert!(c.receive(generation, Event::Sources(Ok(vec![jazz])), 0));
    let rows = c.choices();
    assert_eq!((rows[0].title.as_str(), rows[0].detail.as_str()), ("Morning Jazz", "Apple Music"));
    assert!(act(&mut c, "choose", 1.0).is_none());
    match act(&mut c, "choose", 0.0) {
        Some(Op::Select { id, name }) => assert_eq!((id.as_str(), name.as_str()), ("4", "Morning Jazz")),
        other => panic!("{other:?}"),
    }
    assert_eq!(c.screen.notice.text(), "Starting Morning Jazz…");
    assert_eq!(c.screen.panel, 0);
    done(&mut c, Ok(Done::Playing(text("Morning Jazz"))));
    assert_eq!(c.screen.notice.text(), "Playing Morning Jazz");
}

#[test]
fn play_modes_turn_one_after_another() {
    let none = ModeChange { shuffle: None, repeat: None, repeat_one: None, crossfade: None };
    let off = Modes::default();
    assert_eq!(chosen_mode(off, 0), Some(ModeChange { shuffle: Some(true), ..none }));
    assert_eq!(chosen_mode(off, 1), Some(ModeChange { repeat: Some(true), ..none }));
    let all = Modes { repeat: true, ..off };
    assert_eq!(chosen_mode(all, 1), Some(ModeChange { repeat_one: Some(true), ..none }));
    let one = Modes { repeat_one: true, ..off };
    assert_eq!(
        chosen_mode(one, 1),
        Some(ModeChange { repeat: Some(false), repeat_one: Some(false), ..none })
    );
    assert_eq!(chosen_mode(off, 3), None);
    let mut c = open(paused());
    act(&mut c, "audio", 0.0);
    let details: Vec<String> = c.choices().into_iter().map(|row| row.detail).collect();
    assert_eq!(details, ["Off", "Off", "Off"]);
    assert!(matches!(act(&mut c, "choose", 2.0), Some(Op::Modes(_))));
    let mut changed = paused();
    changed.modes = Modes { repeat: true, repeat_one: true, ..Modes::default() };
    let generation = c.generation;
    assert!(c.receive(generation, Event::State(Ok(changed)), 0), "the sheet is built anew");
    assert_eq!(c.choices()[1].detail, "This track");
}

#[test]
fn what_is_next_can_be_skipped_to() {
    let mut c = open(paused());
    act(&mut c, "subtitles", 0.0);
    let rows = c.choices();
    assert_eq!(rows[0].title, "All I Need");
    assert_eq!(rows[0].detail, "Radiohead · In Rainbows · Press to skip to it");
    assert!(matches!(act(&mut c, "choose", 0.0), Some(Op::Skip(true))));
    let mut last = paused();
    last.now.next = None;
    let mut c = open(last);
    act(&mut c, "subtitles", 0.0);
    assert!(c.choices().is_empty());
    assert_eq!(c.screen.detail.text(), "Nothing is queued after this.");
}

#[test]
fn a_speaker_that_follows_another_is_never_told_to_play() {
    let mut c = open(member());
    for action in ["play", "next", "previous", "seek"] {
        assert!(act(&mut c, action, 0.0).is_none());
        assert_eq!(
            c.screen.notice.text(),
            "Playback is controlled by Kitchen. Open that speaker to change it."
        );
    }
    act(&mut c, "audio", 0.0);
    assert_eq!(c.screen.detail.text(), "Play modes belong to the group's coordinator.");
    assert!(act(&mut c, "choose", 0.0).is_none());
    assert!(matches!(act(&mut c, "volume", 5.0), Some(Op::Volume(5))));
    let mut waiting = Controller::new(0);
    waiting.open(lounge(), None, 0);
    assert!(act(&mut waiting, "play", 0.0).is_none());
    assert_eq!(waiting.screen.notice.text(), "Still connecting to the speaker.");
    waiting.opened(false, 0);
    assert_eq!(waiting.screen.notice.text(), "Connection busy. Reopen the speaker.");
}

#[test]
fn a_failed_read_says_so_and_retry_asks_again() {
    let mut c = open(paused());
    let generation = c.generation;
    c.receive(generation, Event::State(Err(Problem::NotConnected)), 0);
    assert_eq!(c.screen.group.title.text(), "Not connected to the speaker.");
    assert!(!c.screen.group.ready && !c.screen.group.connected);
    done(&mut c, Err(Problem::NothingToPlay));
    assert_eq!(c.screen.notice.text(), "Sonos found nothing to play there.");
    let retry = c.action("retry", 0, false, 0);
    assert!(matches!(retry.request, Some(Request::Open { host: 0xC000_0209, known_art: None })));
    c.receive(generation + 1, Event::State(Ok(playing())), 0);
    assert!(c.snapshot.is_none(), "an answer for another screen");
}

#[test]
fn a_screen_that_was_left_comes_back_as_it_was() {
    let mut c = open(paused());
    let generation = c.generation;
    let art = Event::Art { key: text("weird-fishes"), found: true };
    c.receive(generation, art, 20);
    assert!(c.screen.group.has_art);
    let mut views = Views::new();
    let left = c.close(true);
    assert!(!c.is_open());
    views.keep(left, 7, 1000);
    assert!(views.take("other", 7, 1000).is_none());
    let kept = views.take("lounge-sonos", 7, 1000 + VIEW_TTL_MS - 1);
    let request = c.open(lounge(), kept, 2000);
    match request {
        Request::Open { known_art, .. } => assert_eq!(known_art.as_deref(), Some("weird-fishes")),
        request => panic!("{request:?}"),
    }
    assert_eq!(c.screen.group.title.text(), "Weird Fishes / Arpeggi");
    assert!(c.screen.group.has_art && c.snapshot.is_some());
    // A snapshot with other art clears the picture.
    let mut other = paused();
    other.now.current = Some(track("A", "B", "C", "other-art", None));
    let generation = c.generation;
    c.receive(generation, Event::State(Ok(other)), 0);
    assert!(!c.screen.group.has_art);
    for (serial, now) in [(8, 1000), (7, 1000 + VIEW_TTL_MS)] {
        let mut c = open(paused());
        let mut views = Views::new();
        views.keep(c.close(true), 7, 1000);
        assert!(views.take("lounge-sonos", serial, now).is_none());
    }
    assert!(open(paused()).close(false).is_none());
}

fn read(worker: &mut Worker, snapshot: Snapshot) -> (Option<Event>, Call) {
    let step = worker.advance(Answer::Snapshot(Ok(snapshot)), true);
    (step.send, step.call)
}

#[test]
fn the_worker_connects_reads_and_fetches_artwork_once() {
    let mut worker = Worker::new();
    let open = Request::Open { host: 1, known_art: None };
    assert!(matches!(worker.advance(Answer::Request(open), true).call, Call::Connect(1)));
    assert!(matches!(worker.advance(Answer::Connected(Ok(())), true).call, Call::Read));
    let (sent, call) = read(&mut worker, playing());
    assert!(matches!(sent, Some(Event::State(Ok(_)))));
    assert!(matches!(call, Call::Artwork(art) if art == "weird-fishes"));
    let step = worker.advance(Answer::Artwork(true), true);
    assert!(matches!(step.send, Some(Event::Art { found: true, .. })));
    assert!(matches!(step.call, Call::Wait));
    assert!(matches!(
        worker.advance(Answer::Request(Request::Refresh), true).call,
        Call::Read
    ));
    let (_, call) = read(&mut worker, playing());
    assert!(matches!(call, Call::Wait), "the screen has that artwork");
    let stale = worker.advance(Answer::Request(Request::Refresh), false);
    assert!(stale.send.is_none() && matches!(stale.call, Call::Wait));
    worker.advance(Answer::Request(Request::Close), true);
    assert!(!worker.connected);
    let step = worker.advance(Answer::Request(Request::Refresh), true);
    match step.send {
        Some(Event::State(Err(problem))) => {
            assert_eq!(problem.text(), "Not connected to the speaker.")
        }
        other => panic!("{other:?}"),
    }
}

#[test]
fn the_worker_drops_a_speaker_that_it_cannot_reach() {
    let connected = || Worker { connected: true, ..Worker::new() };
    let mut worker = connected();
    let command = |op| Answer::Request(Request::Command(op));
    assert!(matches!(worker.advance(command(Op::PlayPause), true).call, Call::Command(_)));
    let step = worker.advance(Answer::Command(Err(SonosError::Transport)), true);
    assert!(matches!(step.call, Call::Wait));
    assert!(!worker.connected);
    let step = worker.advance(command(Op::PlayPause), true);
    assert!(matches!(step.send, Some(Event::Done(Err(Problem::NotConnected)))));
    let mut worker = connected();
    let select = Op::Select { id: text("4"), name: text("Jazz") };
    worker.advance(command(select), true);
    let step = worker.advance(Answer::Command(Ok(Reply::Taken)), true);
    assert!(matches!(step.send, Some(Event::Done(Ok(Done::Playing(name)))) if name == "Jazz"));
    assert!(matches!(step.call, Call::Settle));
    assert!(matches!(worker.advance(Answer::Settled, true).call, Call::Read));
    let step = worker.advance(Answer::Snapshot(Err(SonosError::Transport)), true);
    assert!(matches!(step.send, Some(Event::State(Err(Problem::Unreachable)))));
    assert!(worker.connected, "a read that fails keeps the connection");
    let mut worker = connected();
    assert!(matches!(worker.advance(command(Op::Sources), true).call, Call::Sources));
    let step = worker.advance(Answer::Sources(Err(SonosError::Transport)), true);
    assert!(matches!(step.send, Some(Event::Sources(Err(Problem::Unreachable)))));
}

#[test]
fn a_commands_answer_is_read_for_the_screen() {
    assert!(matches!(outcome(None, Ok(Reply::Volume(9))), Ok(Done::Volume(9))));
    assert!(matches!(outcome(None, Ok(Reply::WasMuted(true))), Ok(Done::Unmuted)));
    assert!(matches!(outcome(None, Ok(Reply::WasMuted(false))), Ok(Done::Muted)));
    let cancelled = SonosError::Cancelled { sentence: text("cancelled") };
    assert!(matches!(outcome(None, Err(cancelled)), Ok(Done::Quiet)));
    let refused = SonosError::NotCoordinator { coordinator: text("Kitchen") };
    assert!(matches!(outcome(None, Err(refused)), Err(Problem::ControlledBy(_))));
}

#[test]
fn a_group_is_read_after_a_skip_until_its_track_differs() {
    let mut reads = AfterSkip::new(playing().now.current);
    assert!(reads.read(Some(playing().now)));
    let mut next = playing().now;
    next.current = next.next.take();
    assert!(!reads.read(Some(next)));
    assert_eq!(reads.latest.unwrap().current.unwrap().name, "All I Need");
    let mut reads = AfterSkip::new(None);
    assert!(!reads.read(None));
    let silent = || NowPlaying {
        container: String::new(),
        container_type: String::new(),
        current: None,
        next: None,
    };
    let mut reads = AfterSkip::new(None);
    let mut count = 1;
    while reads.read(Some(silent())) {
        count += 1;
    }
    assert_eq!(count, SKIP_READS);
}

#[test]
fn the_kodi_screen_has_its_fixed_pictures() {
    let rows = |rows: Vec<couch_gui::media_player::Choice>| {
        rows.into_iter().map(|row| (row.title, row.detail)).collect::<Vec<_>>()
    };
    assert_eq!(
        rows(chapters()),
        [
            (text("The Jester"), text("0:00")),
            (text("Theophanes the Greek"), text("27:00")),
            (text("The Passion According to Andrei"), text("1:08:00")),
            (text("The Raid"), text("1:57:00")),
            (text("The Bell"), text("2:55:00")),
        ]
    );
    assert_eq!(
        rows(audio_tracks()),
        [(text("Russian (Original)"), text("AC3")), (text("English"), text("AAC"))]
    );
    assert_eq!(rows(subtitle_tracks())[0], (text("Off"), text("")));
    let film = andrei_rublev();
    let picture = show_playing(&film, true);
    assert_eq!((picture.title.as_str(), picture.metadata.as_str()), ("Andrei Rublev", "1966"));
    assert_eq!(picture.elapsed, "42:17");
    assert_eq!(picture.remaining, "−2:42:43");
    assert!(picture.paused && picture.ready);
    assert!(show_idle().connected && !show_error().connected);
    assert!(show_error().title.starts_with("Kodi is unavailable."));
    assert_eq!((picture.activity, picture.room), ("Watch TV", "Living room"));
    assert_eq!((show_idle().activity, show_error().room), ("Watch TV", "Living room"));
}

#[test]
fn the_sheets_are_a_speakers_or_a_films() {
    assert_eq!(sheet_names(true), ["Sources", "Modes", "Up next"]);
    assert_eq!(sheet_names(false), ["Chapters", "Audio", "Subtitles"]);
}

#[test]
fn the_clock_is_worked_out_in_double_precision() {
    let progress = |read_ms, moved_ms, total_ms| Progress::Timed { read_ms, moved_ms, total_ms };
    assert_eq!(progress(300, 0, 2300).remaining_text(), "−0:01");
    let times = [0, 1, 300, 999, 1000, 1001, 2300, 74_210, 318_000, 86_400_123, u64::MAX - 5];
    for read in times {
        for moved in times {
            let since = std::time::Duration::from_millis(moved).as_secs_f64();
            let position = read as f64 / 1000. + since;
            let live = Progress::Live { read_ms: read, moved_ms: moved };
            assert_eq!(live.elapsed_text(), clock(position as u64));
            for duration in times {
                let total = duration as f64 / 1000.;
                let at = position.clamp(0., total);
                let timed = progress(read, moved, duration);
                assert_eq!(timed.elapsed_text(), clock(at as u64), "{read} {moved} {duration}");
                let left = format!("−{}", clock((total - at) as u64));
                assert_eq!(timed.remaining_text(), left, "{read} {moved} {duration}");
            }
        }
    }
}

#[test]
fn a_share_of_a_track_is_worked_out_in_double_precision() {
    let durations = [0, 1, 229_000, 318_000, 3_600_000, 9_007_199_254_740_993, u64::MAX];
    let values = [
        0.0, -0.0, -3.0, 1e-300, 5e-324, 0.001, 12.3456, 33.333_333_333, 50.0, 99.999_999_999,
        100.0, 100.1, 1e300, f64::INFINITY, f64::NEG_INFINITY, f64::NAN,
    ];
    for duration in durations {
        for value in values {
            let mut now = paused();
            now.now.current = Some(track("A", "B", "C", "d", Some(duration)));
            let mut c = open(now);
            let position = (duration as f64 * value.clamp(0., 100.) / 100.) as u64;
            match act(&mut c, "seek", value) {
                Some(Op::Seek(at)) => assert_eq!(at, position, "{duration} {value}"),
                op => panic!("{op:?}"),
            }
        }
    }
    for value in [0.0, 0.9, -0.9, 1.0, -1.5, 19.99, 21.0, -1e12, 1e300, f64::NAN, f64::INFINITY] {
        let mut c = open(paused());
        let delta = (value as i32).clamp(-20, 20) as i8;
        let delta = if delta == 0 { 5 } else { delta };
        assert!(matches!(act(&mut c, "volume", value), Some(Op::Volume(d)) if d == delta));
        let forward = value > 0.;
        let mut c = open(paused());
        assert!(matches!(act(&mut c, "chapter-step", value), Some(Op::Skip(f)) if f == forward));
    }
}

#[test]
fn a_closed_screen_keeps_what_it_said_but_its_artwork() {
    let mut c = open(playing());
    let generation = c.generation;
    c.receive(generation, Event::Art { key: c.screen.group.art_key.clone().unwrap(), found: true }, 20);
    assert!(c.screen.group.has_art);
    act(&mut c, "Input.Down", 0.0);
    assert!(!c.follow(true));
    assert!(c.follow(false));
    let group = &c.screen.group;
    assert!(group.ready && group.connected && !group.has_art && group.art_key.is_none());
    assert_eq!(group.title.text(), "Weird Fishes / Arpeggi");
    assert_eq!(group.line.text(), "Radiohead · In Rainbows");
    assert_eq!(group.progress.elapsed_text(), "1:14");
    assert_eq!(c.screen.room.text(), "Living room");
    assert_eq!((c.screen.selected, c.selected), (-1, 6));
    assert!(!c.is_open() && c.snapshot.is_none());
    assert!(!c.follow(false), "it is closed once");
}

/// Run a command with what the speaker tells: what was asked, and how it ended.
fn perform(op: Op, told: Vec<Told>) -> (Vec<String>, Result<Reply, SonosError>) {
    let mut asked = vec![];
    let mut told = told.into_iter();
    let mut step = begin_op(op);
    loop {
        match step {
            OpStep::Ask { ask, doing } => {
                asked.push(format!("{ask:?}"));
                step = told_op(doing, told.next().unwrap_or_else(|| panic!("{asked:?}")));
            }
            OpStep::Finish(result) => {
                assert!(told.next().is_none(), "{asked:?}");
                return (asked, result);
            }
            OpStep::Ignore => panic!("{asked:?}"),
        }
    }
}

#[test]
fn a_command_asks_the_speaker_step_by_step() {
    let taken = || Told::Taken(Ok(()));
    let lost = || SonosError::Transport;
    let (asked, result) = perform(Op::ToggleMute, vec![Told::Muted(Ok(true)), taken()]);
    assert_eq!(asked, ["IsMuted", "SetMuted(false)"]);
    assert!(matches!(result, Ok(Reply::WasMuted(true))));
    let (asked, result) = perform(Op::ToggleMute, vec![Told::Muted(Ok(false)), taken()]);
    assert_eq!(asked[1], "SetMuted(true)");
    assert!(matches!(result, Ok(Reply::WasMuted(false))));
    let (asked, result) = perform(Op::ToggleMute, vec![Told::Muted(Err(lost()))]);
    assert_eq!(asked.len(), 1, "nothing is set without a reading");
    assert!(matches!(result, Err(SonosError::Transport)));
    let (asked, result) = perform(Op::Volume(-5), vec![taken(), Told::Level(Ok(23))]);
    assert_eq!(asked, ["Nudge(-5)", "Level"]);
    assert!(matches!(result, Ok(Reply::Volume(23))));
    let (asked, _) = perform(Op::Volume(5), vec![Told::Taken(Err(lost()))]);
    assert_eq!(asked, ["Nudge(5)"]);
    let (asked, result) = perform(Op::Seek(7), vec![taken()]);
    assert_eq!(asked, ["Seek(7)"]);
    assert!(matches!(result, Ok(Reply::Taken)));
    assert!(matches!(begin_op(Op::Sources), OpStep::Ignore));
}

#[test]
fn a_skip_is_read_until_it_has_taken_effect() {
    let now = |name: &str| {
        let mut now = paused().now;
        now.current = Some(track(name, "B", "C", name, None));
        Told::Playing(Ok(now))
    };
    let taken = || Told::Taken(Ok(()));
    let (asked, result) =
        perform(Op::Skip(true), vec![now("A"), taken(), now("A"), now("A"), now("B")]);
    assert_eq!(
        asked,
        [
            "Playing { pause: false }",
            "Skip(true)",
            "Playing { pause: false }",
            "Playing { pause: true }",
            "Playing { pause: true }"
        ]
    );
    assert!(matches!(result, Ok(Reply::Taken)));
    // It is read six times at the most, and a read that fails ends the wait.
    let mut told = vec![now("A"), taken()];
    told.extend((0..SKIP_READS).map(|_| now("A")));
    assert_eq!(perform(Op::Skip(false), told).0.len(), 2 + usize::from(SKIP_READS));
    let failed = || Told::Playing(Err(SonosError::Transport));
    let (asked, result) = perform(Op::Skip(true), vec![failed(), taken(), failed()]);
    assert_eq!(asked.len(), 3);
    assert!(matches!(result, Ok(Reply::Taken)));
    let (asked, result) =
        perform(Op::Skip(true), vec![now("A"), Told::Taken(Err(SonosError::Transport))]);
    assert_eq!(asked.len(), 2);
    assert!(result.is_err());
}

#[test]
fn a_turn_hears_the_worker_before_the_clock_moves() {
    let mut c = open(paused());
    let generation = c.generation;
    let due = c.refresh_at;
    act(&mut c, "previous", 0.0);
    assert!(c.busy);
    let silent = c.poll(true, VecDeque::new(), due);
    assert!(silent.request.is_none() && !silent.focus, "nothing is read while a command is out");
    let later = c.refresh_at;
    let over = (generation, Event::Done(Ok(Done::Quiet)));
    let stale = (generation + 1, Event::State(Err(Problem::Unreachable)));
    let heard = c.poll(true, VecDeque::from([stale, over]), later);
    assert!(matches!(heard.request, Some(Request::Refresh)), "the answer came first");
    assert!(c.snapshot.is_some());
    let lost = (generation, Event::State(Err(Problem::Unreachable)));
    let left = c.poll(false, VecDeque::from([lost]), later);
    assert!(matches!(left.request, Some(Request::Close)));
    assert!(!c.is_open() && c.generation == generation + 1);
    let none = c.poll(true, VecDeque::new(), later + 10_000);
    assert!(none.request.is_none() && !none.focus);
}

#[test]
fn the_rows_of_a_sheet_stay_as_they_were_drawn() {
    let jazz = || Source { id: text("4"), name: text("Morning Jazz"), detail: text("Apple Music") };
    let titles = |c: &Controller| -> Vec<String> {
        c.choices().into_iter().map(|row| row.title).collect()
    };
    let mut c = open(paused());
    act(&mut c, "chapters", 0.0);
    let generation = c.generation;
    c.receive(generation, Event::Sources(Ok(vec![jazz()])), 0);
    assert_eq!(titles(&c), ["Morning Jazz"]);
    // A second answer that lists nothing leaves the rows, and says so above them.
    assert!(!c.receive(generation, Event::Sources(Ok(vec![])), 0));
    assert_eq!(titles(&c), ["Morning Jazz"]);
    assert_eq!(
        c.screen.detail.text(),
        "No sources: add favourites or playlists in the Sonos app."
    );
    assert!(act(&mut c, "choose", 0.0).is_none(), "there is nothing to start");
    // What arrives while the sheet is down is listed when it is drawn again.
    c.action("Input.Back", 0, false, 0);
    let rock = Source { name: text("Evening Rock"), ..jazz() };
    c.receive(generation, Event::Sources(Ok(vec![rock])), 0);
    assert_eq!(titles(&c), ["Morning Jazz"]);
    act(&mut c, "chapters", 0.0);
    assert_eq!(titles(&c), ["Evening Rock"]);
    c.open(lounge(), None, 0);
    assert_eq!(titles(&c), ["Evening Rock"]);
    act(&mut c, "chapters", 0.0);
    assert!(titles(&c).is_empty());
}
