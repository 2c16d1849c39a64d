use couch_gui::power_ui::{
    action_of, outcome, Action, Controller, Outcome, Reply, ARM_MS, PANEL,
};

fn text(s: &str) -> String {
    s.to_string()
}

fn opened() -> Controller {
    let mut c = Controller::new();
    c.follow(true, PANEL);
    c
}

#[test]
fn recovery_is_armed_by_one_press_and_fired_by_a_second() {
    let mut c = opened();
    assert_eq!(c.confirm(Action::Recovery, 0), None);
    assert!(c.message.text().starts_with("Press OK again to restart into recovery."));
    assert_eq!(c.confirm(Action::Recovery, ARM_MS - 1), Some(Action::Recovery));
    assert_eq!(c.message.text(), "Asking the system service…");
    let mut late = opened();
    late.confirm(Action::Recovery, 0);
    late.expire(ARM_MS);
    assert!(late.armed_until.is_none());
    assert_eq!(late.message.text(), "");
    assert_eq!(late.confirm(Action::Recovery, ARM_MS), None);
    let mut left = opened();
    left.confirm(Action::Recovery, 0);
    left.follow(true, 2);
    left.follow(true, PANEL);
    assert_eq!(left.confirm(Action::Recovery, 1), None, "leaving disarms it");
}

#[test]
fn power_off_and_restart_act_at_once_and_only_one_is_out() {
    assert_eq!(action_of(0), Action::Off);
    assert_eq!(action_of(1), Action::Restart);
    assert_eq!(action_of(2), Action::Recovery);
    let mut c = opened();
    c.press(1);
    c.press(0);
    assert_eq!(c.take(0), Some(Action::Restart));
    assert_eq!(c.take(0), None);
    assert!(c.input.is_empty(), "what waits behind an action is dropped");
    c.receive(outcome(Reply::Done), text("Restarting…"), 10);
    assert!(c.busy);
    assert_eq!(c.message.text(), "Restarting…");
    c.expire(20_000_000);
    assert_eq!(c.message.text(), "Restarting…", "the remote is about to go away");
}

#[test]
fn a_refusal_is_said_and_forgotten() {
    let mut c = opened();
    c.confirm(Action::Off, 0);
    c.receive(outcome(Reply::Refused(text("Battery low"))), String::new(), 0);
    assert!(!c.busy);
    assert_eq!(c.message.text(), "Battery low");
    c.expire(8000);
    assert_eq!(c.message.text(), "");
    match outcome(Reply::Unexpected) {
        Outcome::Failed(message) => {
            assert_eq!(message.text(), "Unexpected system service reply")
        }
        other => panic!("{other:?}"),
    }
    c.confirm(Action::Off, 0);
    c.not_sent(0);
    assert_eq!(c.message.text(), "System service is unavailable");
    c.press(0);
    c.follow(false, PANEL);
    assert!(c.input.is_empty() && c.take(0).is_none());
}

#[test]
fn recovery_waits_for_a_second_press_while_the_section_stays_open() {
    let mut c = opened();
    c.press(2);
    assert_eq!(c.take(100), None);
    assert_eq!(c.armed_until, Some(100 + ARM_MS));
    c.press(2);
    assert_eq!(c.take(100 + ARM_MS), None, "too late: it is armed anew");
    c.press(2);
    c.press(0);
    assert_eq!(c.take(101 + ARM_MS), Some(Action::Recovery));
    assert_eq!((c.take(102 + ARM_MS), c.input.len()), (None, 0));
    // An action that could not be handed on lets the next one through.
    let mut c = opened();
    c.press(0);
    c.press(1);
    assert_eq!(c.take(0), Some(Action::Off));
    c.not_sent(0);
    assert_eq!(c.take(0), Some(Action::Restart));
    // Nothing is taken while the section is closed.
    let mut c = Controller::new();
    c.press(0);
    assert_eq!((c.take(0), c.input.len()), (None, 1));
}
