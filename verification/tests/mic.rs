use couch_gui::mic::{
    end_stage, ended, first_phase, no_microphone, readable, unreachable_hub, Endpoint, Event,
    Indicator, Outcome, Phase, Progress, Run, Stage, Summary, Target,
};

fn text(s: &str) -> String {
    s.to_string()
}

#[test]
fn endpoints_come_from_the_saved_url_and_refuse_tls_and_blanks() {
    let e = Endpoint::from_url("http://homeassistant.local:8123/", "tok").unwrap();
    assert_eq!((e.host.as_str(), e.port), ("homeassistant.local", 8123));
    let e = Endpoint::from_url("http://192.168.1.5", "tok").unwrap();
    assert_eq!((e.host.as_str(), e.port), ("192.168.1.5", 8123));
    let e = Endpoint::from_url("ha.lan:8124", "tok").unwrap();
    assert_eq!((e.host.as_str(), e.port), ("ha.lan", 8124));
    assert!(Endpoint::from_url("https://ha.lan", "tok").unwrap_err().contains("TLS"));
    assert!(Endpoint::from_url("http://", "tok").is_err());
    assert!(Endpoint::from_url("http://ha.lan", " ").is_err());
}

#[test]
fn endpoints_keep_brackets_and_odd_ports_apart() {
    let e = Endpoint::from_url("  http://[fe80::1]:9000/api ", " tok ").unwrap();
    assert_eq!((e.host.as_str(), e.port, e.token.as_str()), ("fe80::1", 9000, " tok "));
    let e = Endpoint::from_url("ha.lan:http", "tok").unwrap();
    assert_eq!((e.host.as_str(), e.port), ("ha.lan:http", 8123));
    let e = Endpoint::from_url("ha.lan:-0", "tok").unwrap();
    assert_eq!((e.host.as_str(), e.port), ("ha.lan:-0", 8123));
    let e = Endpoint::from_url("ha.lan:+80", "tok").unwrap();
    assert_eq!((e.host.as_str(), e.port), ("ha.lan", 80));
    let e = Endpoint::from_url("[::1]", "tok").unwrap();
    assert_eq!((e.host.as_str(), e.port), ("[::1]", 8123));
    let why = Endpoint::from_url("http://:80", "tok").unwrap_err();
    assert_eq!(why, "The Home Assistant connection has no host");
    let why = Endpoint::from_url("ha.lan", "").unwrap_err();
    assert_eq!(why, "The Home Assistant connection has no access token");
}

#[test]
fn pipeline_error_codes_read_as_sentences() {
    assert_eq!(readable("stt-no-text-recognized"), "Nothing heard");
    assert_eq!(readable("something-else"), "something-else");
}

#[test]
fn phases_name_themselves() {
    assert_eq!(Phase::Listening.label(), "LISTENING");
    assert_eq!(Phase::Failed.name(), "failed");
}

fn summary(text: Option<&str>, speech: Option<&str>) -> Summary {
    Summary {
        error: None,
        text: text.map(str::to_string),
        speech: speech.map(str::to_string),
    }
}

#[test]
fn a_run_ends_with_what_was_heard_or_why_not() {
    let mut progress = Progress::default();
    let mut run = Run::new();
    assert!(run.event(Event::SpeechOver, &mut progress));
    assert!(run.event(Event::Heard { text: text("lights on") }, &mut progress));
    assert_eq!(progress.phase, Some(Phase::Thinking));
    assert_eq!(progress.heard, "lights on");
    assert!(!run.event(Event::Answered { speech: text("Done") }, &mut progress));
    assert!(!run.event(Event::Other, &mut progress));
    assert_eq!(progress.said, "Done");
    match run.finish(Target::Assistant, Ok(summary(None, None))) {
        Outcome::Answered { heard, said } => {
            assert_eq!((heard.as_str(), said.as_str()), ("lights on", "Done"))
        }
        other => panic!("{other:?}"),
    }
    let mut run = Run::new();
    let failed = Event::Error { code: text("intent-failed"), message: String::new() };
    run.event(failed, &mut progress);
    match run.finish(Target::Assistant, Ok(summary(Some("open"), None))) {
        Outcome::Answered { said, .. } => {
            assert_eq!(said, "Home Assistant could not handle that request")
        }
        other => panic!("{other:?}"),
    }
    let late = Summary { error: Some((text("x"), text("Too late"))), ..summary(None, None) };
    match Run::new().finish(Target::Dictation, Ok(late)) {
        Outcome::Failed(why) => assert_eq!(why, "Too late"),
        other => panic!("{other:?}"),
    }
    match Run::new().finish(Target::Dictation, Ok(summary(Some("  "), None))) {
        Outcome::Failed(why) => assert_eq!(why, "Nothing heard"),
        other => panic!("{other:?}"),
    }
    match Run::new().finish(Target::Dictation, Ok(summary(Some("news"), None))) {
        Outcome::Dictated(words) => assert_eq!(words, "news"),
        other => panic!("{other:?}"),
    }
    match Run::new().finish(Target::Dictation, Err(text("closed"))) {
        Outcome::Failed(why) => assert_eq!(why, "Home Assistant: closed"),
        other => panic!("{other:?}"),
    }
}

#[test]
fn the_overlay_follows_a_run() {
    assert_eq!(first_phase(true), Phase::Connecting);
    assert_eq!(first_phase(false), Phase::Listening);
    assert_eq!(end_stage(Target::Dictation), Stage::SpeechToText);
    assert_eq!(end_stage(Target::Assistant), Stage::Intent);
    let mut progress = Progress::default();
    no_microphone("busy", &mut progress);
    assert_eq!(progress.phase, Some(Phase::Failed));
    assert_eq!(progress.detail, "Microphone unavailable: busy");
    ended(Outcome::NoAssistant, &mut progress);
    assert_eq!(progress.phase, Some(Phase::Failed));
    ended(Outcome::Dictated(text("hi")), &mut progress);
    assert_eq!(progress.phase, Some(Phase::Done));
    match unreachable_hub("refused") {
        Outcome::Failed(why) => assert_eq!(why, "Could not reach Home Assistant: refused"),
        other => panic!("{other:?}"),
    }
}

#[test]
fn the_light_is_on_for_as_long_as_the_microphone_is_open() {
    let mut light = Indicator::new();
    assert!(light.press());
    assert!(light.live && !light.open);
    light.opened(true);
    assert!(!light.press(), "a press while the device is open is ignored");
    light.closed();
    assert!(light.live);
    light.over();
    assert!(!light.live);
    assert!(light.press());
    light.opened(false);
    assert!(!light.live);
}
