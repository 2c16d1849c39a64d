use couch_gui::commands::{
    Command, Failure, Function, KeyPhase, Outcome, PluginCode, PluginFailure, Reason, VolumeText,
};
use couch_gui::model::Integration;
use couch_gui::network_press::{
    send_network, webos_level, Call, CoverCommand, Event, Job, KodiMethod, KodiParams, KodiRoute,
    KodiSaved, PowerCode, SonosError, Stage, Step, Streaming, WebOsVolume,
};
use couch_gui::volume::PluginStatus;

const HINT: &str = "Open http://couch.local on your phone";

fn text(s: &str) -> String {
    s.to_string()
}

fn job(integration: Option<Integration>, id: &str, function: Function) -> Job {
    Job {
        name: text("Den"),
        connection: text("den"),
        integration,
        command: Command { id: text(id), function },
        phase: KeyPhase::Tap,
    }
}

/// Run a press with the given answers: the calls that were made, the result and
/// whether the kept client is dropped.
fn run(job: &Job, kept: bool, answers: Vec<Event>) -> (Vec<Call>, Result<Outcome, Failure>, bool) {
    let (mut stage, mut event) = (Stage::Start, Event::Begin { kept });
    let mut answers = answers.into_iter();
    let mut calls = vec![];
    loop {
        match send_network(job, stage, event) {
            Step::Do { call, stage: next } => {
                calls.push(call);
                stage = next;
                event = answers.next().unwrap_or_else(|| panic!("{calls:?}"));
            }
            Step::Finish { result, forget } => {
                assert!(answers.next().is_none(), "{calls:?}");
                return (calls, result, forget);
            }
            Step::Ignore => panic!("{calls:?}"),
        }
    }
}

fn said(result: Result<Outcome, Failure>) -> (bool, String) {
    match result {
        Err(Failure::Unavailable(why)) => (true, why.text(HINT)),
        Err(Failure::Command(why)) => (false, why.text(HINT)),
        Ok(outcome) => panic!("{outcome:?}"),
    }
}

fn sonos() -> Option<Integration> {
    Some(Integration::Sonos { host: text("192.0.2.9") })
}

fn kodi() -> Option<Integration> {
    Some(Integration::Kodi { host: text("kodi.local"), port: 9090 })
}

fn plugin() -> Option<Integration> {
    Some(Integration::Plugin {
        connection_id: text("den"),
        resource_id: String::new(),
        child: None,
        actions: vec![],
    })
}

#[test]
fn a_sound_key_is_sent_once_and_its_level_is_read_back() {
    let up = job(sonos(), "volume-up", Function::VolumeUp);
    let (calls, result, forget) =
        run(&up, false, vec![Event::Connected, Event::Done, Event::Level(Some((Some(31), false)))]);
    assert_eq!(calls, [Call::SonosConnect, Call::SonosCommand, Call::SonosLevel]);
    let volume = result.unwrap().volume.unwrap();
    assert_eq!((volume.target.as_str(), volume.level), ("Den", 31));
    assert!(!forget);
    // A kept client is not opened again, and a level is one absolute write.
    let level = job(sonos(), "volume:40", Function::Volume(40));
    let (calls, result, _) = run(&level, true, vec![Event::Done, Event::Level(None)]);
    assert_eq!(calls, [Call::SonosVolume(40), Call::SonosLevel]);
    // A level that cannot be read leaves the command taken.
    assert!(result.unwrap().volume.is_none());
    let next = job(sonos(), "next", Function::Next);
    assert_eq!(run(&next, true, vec![Event::Done]).0, [Call::SonosCommand]);
}

#[test]
fn a_speaker_that_failed_is_forgotten_unless_the_press_was_abandoned() {
    let next = job(sonos(), "next", Function::Next);
    let failed = |error| Event::SonosFailed { error, why: text("The speaker did not answer") };
    let (_, result, forget) = run(&next, true, vec![failed(SonosError::Transport)]);
    assert_eq!(said(result), (false, text("The speaker did not answer")));
    assert!(forget);
    assert!(!run(&next, true, vec![failed(SonosError::Cancelled)]).2);
    // An address that is none ends the press; a speaker that is away does not.
    let (_, result, _) = run(&next, false, vec![Event::BadAddress]);
    assert!(matches!(result, Err(Failure::Command(Reason::SonosAddress))));
    let (_, result, _) = run(&next, false, vec![Event::Failed(text("No route to host"))]);
    assert_eq!(said(result), (true, text("No route to host")));
}

#[test]
fn a_streaming_television_needs_its_own_credentials() {
    let home = job(Some(Integration::AndroidTv), "home", Function::Home);
    let own = |kept| Event::Credentials { kind: Some(Streaming::AndroidTv), kept };
    let (calls, result, _) = run(&home, false, vec![own(false), Event::Connected, Event::Done]);
    assert_eq!(
        calls,
        [
            Call::StreamingLoad(Streaming::AndroidTv),
            Call::StreamingConnect(Streaming::AndroidTv),
            Call::StreamingCommand(Streaming::AndroidTv)
        ]
    );
    assert!(result.is_ok());
    let (calls, _, forget) = run(&home, false, vec![own(true), Event::Failed(text("gone"))]);
    assert_eq!(calls.len(), 2);
    assert!(forget);
    let other = Event::Credentials { kind: Some(Streaming::Tizen), kept: true };
    let (_, result, _) = run(&home, false, vec![other]);
    assert!(matches!(result, Err(Failure::Command(Reason::WrongProvider))));
    let (_, result, _) = run(&home, false, vec![Event::Failed(text("no file"))]);
    assert!(matches!(result, Err(Failure::Command(Reason::PairFirst))));
    let nameless = Job { connection: String::new(), ..home };
    let (calls, result, _) = run(&nameless, false, vec![]);
    assert!(calls.is_empty());
    assert!(matches!(result, Err(Failure::Command(Reason::NamedConnection))));
    assert_eq!(Streaming::AndroidTv.key("den"), "androidtv:den");
}

#[test]
fn kodi_is_asked_for_its_player_before_a_transport_key() {
    let stop = job(kodi(), "stop", Function::Stop);
    let saved = KodiSaved { host: text("kodi.local"), http_control: true };
    let (calls, result, _) = run(
        &stop,
        false,
        vec![
            Event::KodiSaved(Some(saved)),
            Event::Connected,
            Event::Playing(Some(1)),
            Event::Done,
        ],
    );
    assert_eq!(
        calls,
        [
            Call::KodiLoad,
            Call::KodiOpen(KodiRoute::Http),
            Call::KodiPlayback,
            Call::KodiPlayer(1, KodiMethod::Stop, KodiParams::Empty)
        ]
    );
    assert!(result.is_ok());
    // Settings that were saved for another box do not route this one.
    let other = KodiSaved { host: text("attic.local"), http_control: true };
    let (calls, result, _) = run(
        &stop,
        false,
        vec![Event::KodiSaved(Some(other)), Event::Connected, Event::Playing(None)],
    );
    assert_eq!(calls[1], Call::KodiOpen(KodiRoute::Tcp));
    assert!(matches!(result, Err(Failure::Command(Reason::KodiIdle))));
    let mute = job(kodi(), "mute", Function::Mute);
    let (calls, result, _) = run(
        &mute,
        false,
        vec![
            Event::KodiSaved(None),
            Event::Connected,
            Event::Done,
            Event::Level(Some((Some(55), true))),
        ],
    );
    assert_eq!(
        calls[2..],
        [Call::KodiMethod(KodiMethod::SetMute, KodiParams::MuteToggle), Call::KodiLevel]
    );
    let volume = result.unwrap().volume.unwrap();
    assert_eq!(volume.text, VolumeText::Muted);
}

#[test]
fn a_webos_televisions_power_goes_its_own_way() {
    let webos = || Some(Integration::WebOs);
    let ways = [
        (Function::Toggle, true, Call::WebOsTransmit(PowerCode::Toggle)),
        (Function::Toggle, false, Call::WebOsTogglePower),
        (Function::PowerOn, true, Call::WebOsTransmit(PowerCode::On)),
        (Function::PowerOn, false, Call::WebOsWake),
        (Function::PowerOff, true, Call::WebOsTransmit(PowerCode::Off)),
        (Function::PowerOff, false, Call::WebOsCommand),
    ];
    for (function, ir, call) in ways {
        let press = job(webos(), "power", function);
        let method = Event::PowerMethod { ir, kept: true };
        let (calls, result, forget) = run(&press, true, vec![method, Event::Done]);
        assert_eq!(calls, [Call::WebOsPower, call]);
        assert!(result.is_ok() && !forget);
    }
    // Any other key goes over the connection, which is opened where none is kept.
    let ok = job(webos(), "ok", Function::Okay);
    assert_eq!(
        run(&ok, false, vec![Event::Connected, Event::Done]).0,
        [Call::WebOsConnect, Call::WebOsCommand]
    );
    let (_, result, forget) = run(&ok, true, vec![Event::Failed(text("closed"))]);
    assert_eq!(said(result), (false, text("closed")));
    assert!(forget);
    let (_, result, _) = run(&ok, false, vec![Event::SettingsFailed(text("no key"))]);
    assert_eq!(said(result), (false, text("no key")));
}

#[test]
fn a_webos_level_is_read_in_either_shape() {
    let flat = WebOsVolume { volume: Some(12), mute_status: None, muted: Some(true) };
    assert_eq!(webos_level(flat, None), (Some(12), true));
    let empty = WebOsVolume { volume: None, mute_status: None, muted: None };
    let nested = WebOsVolume { volume: Some(8), mute_status: Some(false), muted: None };
    assert_eq!(webos_level(empty, Some(nested)), (Some(8), false));
    assert_eq!(webos_level(empty, None), (None, false));
}

#[test]
fn a_light_is_asked_before_it_is_switched_over() {
    let hue = || Some(Integration::Hue { light_id: text("1") });
    let toggle = job(hue(), "toggle", Function::Toggle);
    let (calls, _, _) =
        run(&toggle, false, vec![Event::Connected, Event::Light(Some(true)), Event::Done]);
    assert_eq!(calls, [Call::HueOpen, Call::HueState, Call::HuePower(false)]);
    let (_, result, _) = run(&toggle, false, vec![Event::Connected, Event::Light(None)]);
    assert!(matches!(result, Err(Failure::Command(Reason::HueUnavailable))));
    let dim = job(hue(), "dim:30", Function::Dim(30));
    assert_eq!(
        run(&dim, false, vec![Event::Connected, Event::Done]).0[1],
        Call::HueBrightness(30)
    );
    let matter = |function| job(Some(Integration::Matter { device: text("7") }), "", function);
    assert_eq!(run(&matter(Function::Off), false, vec![Event::Done]).0, [Call::MatterPower(false)]);
    assert_eq!(run(&matter(Function::Toggle), false, vec![Event::Done]).0, [Call::MatterToggleOrOn]);
}

#[test]
fn home_assistant_has_commands_for_each_kind_of_entity() {
    let entity = || Some(Integration::HomeAssistant { entity_id: text("cover.blind") });
    let ways = [
        (Function::Open, Call::HomeAssistantCover(CoverCommand::Open)),
        (Function::Stop, Call::HomeAssistantCover(CoverCommand::Stop)),
        (Function::Position(60), Call::HomeAssistantCover(CoverCommand::Position(60))),
        (Function::Mode(text("heat")), Call::HomeAssistantMode),
        (Function::On, Call::HomeAssistantPower(true)),
    ];
    for (function, call) in ways {
        let (calls, result, _) =
            run(&job(entity(), "", function), false, vec![Event::Connected, Event::Done]);
        assert_eq!(calls, [Call::HomeAssistantOpen, call]);
        assert!(result.is_ok());
    }
    let warmer = job(entity(), "temperature-up", Function::TemperatureUp);
    let (calls, _, _) = run(&warmer, false, vec![Event::Connected, Event::Done, Event::Done]);
    assert_eq!(calls[1..], [Call::HomeAssistantTarget(1), Call::HomeAssistantApply]);
    let toggle = job(entity(), "toggle", Function::Toggle);
    let (_, result, _) = run(&toggle, false, vec![Event::Connected, Event::Light(None)]);
    assert!(matches!(result, Err(Failure::Command(Reason::HomeAssistantUnavailable))));
    // Without a connection the press ends here rather than with another transport.
    let (_, result, _) = run(&toggle, false, vec![Event::Failed(text("Home Assistant is gone"))]);
    assert_eq!(said(result), (false, text("Home Assistant is gone")));
}

#[test]
fn a_package_reads_its_level_at_once_or_when_the_hold_is_over() {
    let up = job(plugin(), "volume-up", Function::VolumeUp);
    let status = PluginStatus {
        on: None,
        muted: Some(false),
        volume: Some(44),
        volume_db: None,
        light: None,
        cover: None,
    };
    let (calls, result, _) = run(&up, false, vec![Event::PluginOk, Event::Status(Some(status))]);
    assert_eq!(calls, [Call::PluginKey, Call::PluginStatus]);
    assert_eq!(result.unwrap().volume.unwrap().level, 44);
    let held = Job { phase: KeyPhase::Repeat, ..up };
    let (calls, result, _) = run(&held, false, vec![Event::PluginOk]);
    assert_eq!(calls, [Call::PluginKey]);
    assert!(result.unwrap().settle);
    let (_, result, _) = run(&held, false, vec![Event::PluginOther]);
    assert!(matches!(result, Err(Failure::Command(Reason::InvalidCommandResponse))));
    // Only a package's own word that nothing was done leaves the key to another
    // transport.
    let refuse = |code| {
        Event::PluginFailed(PluginFailure { code, sentence: text("No"), reason: None })
    };
    let (_, result, _) = run(&held, false, vec![refuse(PluginCode::Rejected)]);
    assert!(matches!(result, Err(Failure::Command(_))));
    let (_, result, _) = run(&held, false, vec![refuse(PluginCode::Busy)]);
    assert!(matches!(result, Err(Failure::Unavailable(_))));
}

#[test]
fn what_has_no_network_is_left_to_the_next_transport() {
    let (calls, result, _) = run(&job(None, "ok", Function::Okay), false, vec![]);
    assert!(calls.is_empty());
    assert!(matches!(result, Err(Failure::Unavailable(Reason::NoNetwork))));
    let legacy = Integration::Legacy { needs_package: text("Needs the Denon package") };
    let (_, result, _) = run(&job(Some(legacy), "ok", Function::Okay), false, vec![]);
    assert_eq!(said(result), (true, text("Needs the Denon package")));
    let camera = Integration::UnifiProtect { camera: text("door") };
    let (_, result, _) = run(&job(Some(camera), "ok", Function::Okay), false, vec![]);
    assert!(matches!(result, Err(Failure::Command(Reason::CannotSend))));
    // An event that answers nothing changes nothing.
    let ok = job(sonos(), "ok", Function::Okay);
    assert!(matches!(send_network(&ok, Stage::Sending, Event::Connected), Step::Ignore));
}
