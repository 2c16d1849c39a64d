//! The Power section of the settings: power off, restart, and restart into
//! recovery.
//!
//! Recovery is armed by one OK and fired by a second within a few seconds, for
//! it leaves the remote on a screen with no interface. Power off and restart act
//! on the first OK.
use crate::num::{later, later_than};
use std::collections::VecDeque;
use vstd::prelude::*;

verus! {

/// The settings panel that this section owns.
pub const PANEL: i32 = 6;

/// How long a first OK on recovery stays armed for the second, in milliseconds.
pub const ARM_MS: u64 = 6000;

/// How long the messages stay, in milliseconds.
pub const ACCEPTED_MS: u64 = 120000;

pub const FAILED_MS: u64 = 8000;

pub const ASKING_MS: u64 = 20000;

/// What the system service is asked to do.
#[derive(Clone, Copy, PartialEq, Eq, Structural, Debug)]
pub enum Action {
    Off,
    Restart,
    Recovery,
}

/// What a row of the section does.
pub fn action_of(row: i32) -> (r: Action)
    ensures
        r == row_action(row),
{
    if row == 0 {
        Action::Off
    } else if row == 1 {
        Action::Restart
    } else {
        Action::Recovery
    }
}

/// What the system service answers.
#[derive(Debug)]
pub enum Reply {
    Done,
    Refused(String),
    Unexpected,
    /// The service could not be asked.
    Failed(String),
}

/// What an action came to.
#[derive(Debug)]
pub enum Outcome {
    Accepted,
    Failed(Message),
}

/// What the section says.
#[derive(Debug)]
pub enum Message {
    Blank,
    /// What an action that was accepted is called.
    Accepted(String),
    Said(String),
    UnexpectedReply,
    Confirm,
    Asking,
    Unavailable,
}

impl Message {
    /// The message's text.
    pub open spec fn spec_text(self) -> Seq<char> {
        match self {
            Message::Blank => ""@,
            Message::Accepted(label) => label@,
            Message::Said(error) => error@,
            Message::UnexpectedReply => "Unexpected system service reply"@,
            Message::Confirm =>
                "Press OK again to restart into recovery. Recovery has no remote UI: it brings up Wi-Fi and SSH and a shell on USB, and the remote stays there until the flag is cleared (docs/device-recovery.md)."@,
            Message::Asking => "Asking the system service…"@,
            Message::Unavailable => "System service is unavailable"@,
        }
    }

    /// The message's text.
    pub fn text(&self) -> (r: String)
        ensures
            r@ == self.spec_text(),
    {
        match self {
            Message::Blank => "".to_owned(),
            Message::Accepted(label) => label.clone(),
            Message::Said(error) => error.clone(),
            Message::UnexpectedReply => "Unexpected system service reply".to_owned(),
            Message::Confirm =>
                "Press OK again to restart into recovery. Recovery has no remote UI: it brings up Wi-Fi and SSH and a shell on USB, and the remote stays there until the flag is cleared (docs/device-recovery.md).".to_owned(),
            Message::Asking => "Asking the system service…".to_owned(),
            Message::Unavailable => "System service is unavailable".to_owned(),
        }
    }
}

/// What an answer of the system service means.
pub fn outcome(reply: Reply) -> (r: Outcome)
    ensures
        r == match reply {
            Reply::Done => Outcome::Accepted,
            Reply::Refused(error) => Outcome::Failed(Message::Said(error)),
            Reply::Unexpected => Outcome::Failed(Message::UnexpectedReply),
            Reply::Failed(error) => Outcome::Failed(Message::Said(error)),
        },
        r is Accepted <==> reply is Done,
{
    match reply {
        Reply::Done => Outcome::Accepted,
        Reply::Refused(error) => Outcome::Failed(Message::Said(error)),
        Reply::Unexpected => Outcome::Failed(Message::UnexpectedReply),
        Reply::Failed(error) => Outcome::Failed(Message::Said(error)),
    }
}

/// The section.
#[derive(Debug)]
pub struct Controller {
    pub input: VecDeque<Action>,
    /// An action is out.
    pub busy: bool,
    pub armed_until: Option<u64>,
    pub notice_until: Option<u64>,
    pub open: bool,
    pub message: Message,
}

/// The section, as mathematical values.
#[verifier::ext_equal]
pub struct State {
    pub input: Seq<Action>,
    pub busy: bool,
    pub armed_until: Option<u64>,
    pub notice_until: Option<u64>,
    pub open: bool,
    pub message: Message,
}

impl View for Controller {
    type V = State;

    open spec fn view(&self) -> State {
        State {
            input: self.input@,
            busy: self.busy,
            armed_until: self.armed_until,
            notice_until: self.notice_until,
            open: self.open,
            message: self.message,
        }
    }
}

/// Whether a time has come.
pub open spec fn over(until: Option<u64>, now: u64) -> bool {
    until matches Some(t) && now >= t
}

fn is_over(until: Option<u64>, now: u64) -> (r: bool)
    ensures
        r == over(until, now),
{
    match until {
        Some(t) => now >= t,
        None => false,
    }
}

/// What a row of the section does.
pub open spec fn row_action(row: i32) -> Action {
    if row == 0 {
        Action::Off
    } else if row == 1 {
        Action::Restart
    } else {
        Action::Recovery
    }
}

impl State {
    /// Closed, with nothing asked.
    pub open spec fn first() -> State {
        State {
            input: Seq::empty(),
            busy: false,
            armed_until: None,
            notice_until: None,
            open: false,
            message: Message::Blank,
        }
    }

    /// Whether recovery is armed: whether a second OK would fire it.
    pub open spec fn armed(self, now: u64) -> bool {
        self.armed_until is Some && !over(self.armed_until, now)
    }

    /// The section with a message up.
    pub open spec fn saying(self, message: Message, ms: u64, now: u64) -> State {
        State { message, notice_until: Some(later(now, ms)), ..self }
    }

    /// What the settings make of the section. Entering or leaving it disarms
    /// recovery; entering clears the message, leaving drops the presses that
    /// wait.
    pub open spec fn followed(self, settings: bool, panel: i32) -> State {
        let open = settings && panel == PANEL;
        if open == self.open {
            self
        } else if open {
            State {
                open,
                armed_until: None,
                message: Message::Blank,
                notice_until: None,
                ..self
            }
        } else {
            State { open, armed_until: None, input: Seq::empty(), ..self }
        }
    }

    /// What an action came to. One that was accepted keeps the section busy: the
    /// remote is about to go away.
    pub open spec fn received(self, outcome: Outcome, label: String, now: u64) -> State {
        match outcome {
            Outcome::Accepted => self.saying(Message::Accepted(label), ACCEPTED_MS, now),
            Outcome::Failed(message) => State { busy: false, ..self }.saying(
                message,
                FAILED_MS,
                now,
            ),
        }
    }

    /// What one OK does: the action to ask for, if there is one.
    pub open spec fn confirmed(self, action: Action, now: u64) -> (State, Option<Action>) {
        if self.busy {
            (self, None)
        } else if action == Action::Recovery && !self.armed(now) {
            (
                State { armed_until: Some(later(now, ARM_MS)), ..self }.saying(
                    Message::Confirm,
                    ARM_MS,
                    now,
                ),
                None,
            )
        } else {
            (
                State { armed_until: None, busy: true, ..self }.saying(
                    Message::Asking,
                    ASKING_MS,
                    now,
                ),
                Some(action),
            )
        }
    }

    /// The section without the OK that waits longest.
    pub open spec fn popped(self) -> State {
        State { input: self.input.subrange(1, self.input.len() as int), ..self }
    }

    /// What the OKs that wait do, up to the first that asks for an action.
    pub open spec fn taken(self, now: u64) -> (State, Option<Action>)
        decreases self.input.len(),
    {
        if !self.open || self.input.len() == 0 {
            (self, None)
        } else {
            let (next, sent) = self.popped().confirmed(self.input[0], now);
            if sent is Some {
                (next, sent)
            } else {
                next.taken(now)
            }
        }
    }

    /// What is left where an action could not be handed on.
    pub open spec fn unsent(self, now: u64) -> State {
        State { busy: false, ..self }.saying(Message::Unavailable, FAILED_MS, now)
    }

    /// What time does to the section while it is open: recovery disarms, and a
    /// message goes, but not while an action is out.
    pub open spec fn expired(self, now: u64) -> State {
        let disarms = self.open && over(self.armed_until, now);
        let ends = self.open && over(self.notice_until, now);
        State {
            armed_until: if disarms {
                None
            } else {
                self.armed_until
            },
            notice_until: if ends {
                None
            } else {
                self.notice_until
            },
            message: if ends && (disarms || !self.busy) {
                Message::Blank
            } else {
                self.message
            },
            ..self
        }
    }
}

impl Controller {
    /// Closed, with nothing asked.
    pub fn new() -> (r: Controller)
        ensures
            r@ == State::first(),
    {
        Controller {
            input: VecDeque::new(),
            busy: false,
            armed_until: None,
            notice_until: None,
            open: false,
            message: Message::Blank,
        }
    }

    /// OK has been pressed on a row.
    pub fn press(&mut self, row: i32)
        ensures
            final(self)@ == (State { input: old(self)@.input.push(row_action(row)), ..old(self)@ }),
    {
        self.input.push_back(action_of(row));
    }

    fn say(&mut self, message: Message, ms: u64, now: u64)
        ensures
            final(self)@ == old(self)@.saying(message, ms, now),
    {
        self.message = message;
        self.notice_until = Some(later_than(now, ms));
    }

    /// Follow the settings.
    pub fn follow(&mut self, settings: bool, panel: i32)
        ensures
            final(self)@ == old(self)@.followed(settings, panel),
    {
        let open = settings && panel == PANEL;
        if open != self.open {
            self.open = open;
            self.armed_until = None;
            if open {
                self.message = Message::Blank;
                self.notice_until = None;
            } else {
                self.input = VecDeque::new();
            }
        }
    }

    /// Take what an action came to.
    pub fn receive(&mut self, outcome: Outcome, label: String, now: u64)
        ensures
            final(self)@ == old(self)@.received(outcome, label, now),
    {
        match outcome {
            Outcome::Accepted => self.say(Message::Accepted(label), ACCEPTED_MS, now),
            Outcome::Failed(message) => {
                self.busy = false;
                self.say(message, FAILED_MS, now);
            },
        }
    }

    /// What one OK does: the action to ask for, if there is one.
    pub fn confirm(&mut self, action: Action, now: u64) -> (r: Option<Action>)
        ensures
            (final(self)@, r) == old(self)@.confirmed(action, now),
    {
        if self.busy {
            return None;
        }
        let armed = self.armed_until.is_some() && !is_over(self.armed_until, now);
        if action == Action::Recovery && !armed {
            self.armed_until = Some(later_than(now, ARM_MS));
            self.say(Message::Confirm, ARM_MS, now);
            return None;
        }
        self.armed_until = None;
        self.busy = true;
        self.say(Message::Asking, ASKING_MS, now);
        Some(action)
    }

    /// Take the OKs that wait, in their order, up to the first that asks for an
    /// action. Called again until there is none, and told by
    /// [`Controller::not_sent`] of an action that could not be handed on.
    pub fn take(&mut self, now: u64) -> (r: Option<Action>)
        ensures
            (final(self)@, r) == old(self)@.taken(now),
    {
        while self.open && self.input.len() > 0
            invariant
                self@.taken(now) == old(self)@.taken(now),
            decreases self.input@.len(),
        {
            let ghost before = self@;
            match self.input.pop_front() {
                Some(action) => {
                    assert(self@ =~= before.popped());
                    let sent = self.confirm(action, now);
                    if sent.is_some() {
                        return sent;
                    }
                },
                None => {},
            }
        }
        None
    }

    /// The action could not be handed on.
    pub fn not_sent(&mut self, now: u64)
        ensures
            final(self)@ == old(self)@.unsent(now),
    {
        self.busy = false;
        self.say(Message::Unavailable, FAILED_MS, now);
    }

    /// Let time pass.
    pub fn expire(&mut self, now: u64)
        ensures
            final(self)@ == old(self)@.expired(now),
    {
        if !self.open {
            return ;
        }
        let ends = is_over(self.notice_until, now);
        if is_over(self.armed_until, now) {
            self.armed_until = None;
            if ends {
                self.message = Message::Blank;
            }
        }
        if ends {
            self.notice_until = None;
            if !self.busy {
                self.message = Message::Blank;
            }
        }
    }
}

/// Recovery takes two presses: the first only arms it, and a second fires it
/// only while it is armed.
pub proof fn recovery_takes_two_presses(c: State, first: u64, second: u64)
    requires
        !c.busy,
        !c.armed(first),
        first <= second,
    ensures
        c.confirmed(Action::Recovery, first).1 is None,
        c.confirmed(Action::Recovery, first).0.confirmed(Action::Recovery, second).1 == if second
            < later(first, ARM_MS) {
            Some(Action::Recovery)
        } else {
            None
        },
{
}

/// Power off and restart act on the first press.
pub proof fn other_actions_take_one(c: State, now: u64)
    requires
        c.open,
        !c.busy,
        c.input.len() > 0,
        c.input[0] != Action::Recovery,
    ensures
        c.taken(now).1 == Some(c.input[0]),
{
}

proof fn a_busy_section_sends_nothing(c: State, now: u64)
    requires
        c.open,
        c.busy,
    ensures
        c.taken(now) == (State { input: Seq::empty(), ..c }, None::<Action>),
    decreases c.input.len(),
{
    if c.input.len() > 0 {
        a_busy_section_sends_nothing(c.popped(), now);
    } else {
        assert(c =~= State { input: Seq::empty(), ..c });
    }
}

/// While an action is out no other is asked for: the OKs that wait behind it are
/// dropped.
pub proof fn one_action_at_a_time(c: State, now: u64, then: u64)
    requires
        c.taken(now).1 is Some,
    ensures
        ({
            let out = c.taken(now).0;
            out.taken(then) == (State { input: Seq::empty(), ..out }, None::<Action>)
        }),
    decreases c.input.len(),
{
    let (next, sent) = c.popped().confirmed(c.input[0], now);
    if sent is Some {
        a_busy_section_sends_nothing(next, then);
    } else {
        one_action_at_a_time(next, now, then);
    }
}

/// Recovery is asked for only where it was armed already, or where the OK that
/// arms it stands in the queue before the one that fires it.
pub proof fn recovery_is_armed_first(c: State, now: u64)
    requires
        c.taken(now).1 == Some(Action::Recovery),
    ensures
        c.armed(now) || exists|i: int, j: int|
            0 <= i < j < c.input.len() && #[trigger] c.input[i] == Action::Recovery
                && #[trigger] c.input[j] == Action::Recovery,
    decreases c.input.len(),
{
    let (next, sent) = c.popped().confirmed(c.input[0], now);
    if sent is None {
        recovery_is_armed_first(next, now);
        if !c.armed(now) {
            if next.armed(now) {
                recovery_waits(next, now);
                let j = choose|j: int|
                    0 <= j < next.input.len() && #[trigger] next.input[j] == Action::Recovery;
                assert(c.input[0] == Action::Recovery && c.input[j + 1] == Action::Recovery);
            } else {
                let (i, j) = choose|i: int, j: int|
                    0 <= i < j < next.input.len() && #[trigger] next.input[i] == Action::Recovery
                        && #[trigger] next.input[j] == Action::Recovery;
                assert(c.input[i + 1] == Action::Recovery && c.input[j + 1] == Action::Recovery);
            }
        }
    }
}

proof fn recovery_waits(c: State, now: u64)
    requires
        c.taken(now).1 == Some(Action::Recovery),
    ensures
        exists|j: int| 0 <= j < c.input.len() && #[trigger] c.input[j] == Action::Recovery,
    decreases c.input.len(),
{
    let (next, sent) = c.popped().confirmed(c.input[0], now);
    if sent is Some {
        assert(c.input[0] == Action::Recovery);
    } else {
        recovery_waits(next, now);
        let j = choose|j: int|
            0 <= j < next.input.len() && #[trigger] next.input[j] == Action::Recovery;
        assert(c.input[j + 1] == Action::Recovery);
    }
}

/// Something that happens to the section.
pub enum Happening {
    Follow { settings: bool, panel: i32 },
    Press(i32),
    Receive { outcome: Outcome, label: String, now: u64 },
    Take(u64),
    NotSent(u64),
    Expire(u64),
}

/// What something does to the section, and the action that is asked for.
pub open spec fn happened(c: State, happening: Happening) -> (State, Option<Action>) {
    match happening {
        Happening::Follow { settings, panel } => (c.followed(settings, panel), None),
        Happening::Press(row) => (State { input: c.input.push(row_action(row)), ..c }, None),
        Happening::Receive { outcome, label, now } => (c.received(outcome, label, now), None),
        Happening::Take(now) => c.taken(now),
        Happening::NotSent(now) => (c.unsent(now), None),
        Happening::Expire(now) => (c.expired(now), None),
    }
}

/// The section after the first `n` of what happened to it.
pub open spec fn after(trace: Seq<Happening>, n: int) -> State
    decreases n,
{
    if n <= 0 || n > trace.len() {
        State::first()
    } else {
        happened(after(trace, n - 1), trace[n - 1]).0
    }
}

/// Whether the k-th thing to happen armed recovery until a time: OKs that were
/// taken from an open section, a recovery among them, less than that before.
pub open spec fn arms(trace: Seq<Happening>, k: int, until: u64) -> bool {
    let before = after(trace, k);
    &&& trace[k] matches Happening::Take(at)
    &&& until == later(at, ARM_MS)
    &&& before.open
    &&& !before.busy
    &&& exists|i: int| 0 <= i < before.input.len() && #[trigger] before.input[i] == Action::Recovery
}

proof fn taking_arms(c: State, now: u64)
    ensures
        c.taken(now).0.open == c.open,
        c.taken(now).1 is Some ==> c.taken(now).0.armed_until is None,
        c.taken(now).0.armed_until is Some ==> c.taken(now).1 is None && (c.taken(now).0.armed_until
            == c.armed_until || {
            &&& c.taken(now).0.armed_until == Some(later(now, ARM_MS))
            &&& c.open
            &&& !c.busy
            &&& exists|i: int| 0 <= i < c.input.len() && #[trigger] c.input[i] == Action::Recovery
        }),
    decreases c.input.len(),
{
    if c.open && c.input.len() > 0 {
        let (next, sent) = c.popped().confirmed(c.input[0], now);
        if sent is None {
            taking_arms(next, now);
            if exists|i: int|
                0 <= i < next.input.len() && #[trigger] next.input[i] == Action::Recovery {
                let i = choose|i: int|
                    0 <= i < next.input.len() && #[trigger] next.input[i] == Action::Recovery;
                assert(c.input[i + 1] == Action::Recovery);
            }
            if !c.busy {
                assert(c.input[0] == Action::Recovery);
            }
        }
    }
}

/// Whatever has happened, a recovery that is armed was armed by an OK on it, six
/// seconds before its time is over; the section has been open since, and nothing
/// was asked for in between.
pub proof fn an_armed_recovery_was_pressed(trace: Seq<Happening>, n: int)
    requires
        0 <= n <= trace.len(),
    ensures
        after(trace, n).armed_until matches Some(until) ==> exists|k: int|
            0 <= k < n && #[trigger] arms(trace, k, until) && forall|j: int|
                k < j <= n ==> {
                    &&& (#[trigger] after(trace, j)).open
                    &&& after(trace, j).armed_until == Some(until)
                    &&& happened(after(trace, j - 1), trace[j - 1]).1 is None
                },
    decreases n,
{
    if n > 0 {
        an_armed_recovery_was_pressed(trace, n - 1);
        let before = after(trace, n - 1);
        let now = after(trace, n);
        if now.armed_until is Some {
            let until = now.armed_until->0;
            match trace[n - 1] {
                Happening::Take(at) => {
                    taking_arms(before, at);
                },
                _ => {},
            }
            if before.armed_until == Some(until) {
                let k = choose|k: int|
                    0 <= k < n - 1 && #[trigger] arms(trace, k, until) && forall|j: int|
                        k < j <= n - 1 ==> {
                            &&& (#[trigger] after(trace, j)).open
                            &&& after(trace, j).armed_until == Some(until)
                            &&& happened(after(trace, j - 1), trace[j - 1]).1 is None
                        };
                assert(after(trace, n - 1).open);
                assert(arms(trace, k, until));
            } else {
                assert(arms(trace, n - 1, until));
            }
        }
    }
}

/// Each row is its own action.
pub proof fn each_row_is_its_own_action(row: i32)
    ensures
        row_action(row) is Off <==> row == 0,
        row_action(row) is Restart <==> row == 1,
        row_action(row) is Recovery <==> row != 0 && row != 1,
{
}

/// An action that is confirmed is the one that was pressed, and the section says
/// that it asks; what is armed says what a second press would do, for six seconds.
pub proof fn a_press_is_confirmed_or_arms(c: State, action: Action, now: u64)
    requires
        now <= 0x7fff_ffff_ffff_ffff,
    ensures
        ({
            let (next, sent) = c.confirmed(action, now);
            &&& c.busy ==> next == c && sent is None
            &&& !c.busy && !(action is Recovery) ==> sent == Some(action)
            &&& !c.busy && action is Recovery && c.armed(now) ==> sent == Some(Action::Recovery)
            &&& sent is Some ==> next.busy && next.armed_until is None && next.message.spec_text()
                == "Asking the system service…"@ && next.notice_until == Some((now + 20000) as u64)
            &&& !c.busy && action is Recovery && !c.armed(now) ==> sent is None && !next.busy
                && next.armed_until == Some((now + 6000) as u64) && next.message is Confirm
                && next.notice_until == next.armed_until
            &&& next.open == c.open && next.input == c.input
        }),
{
}

/// What the system service answers: an action that was accepted stays out, and is
/// said for two minutes; one that failed frees the section, and is said for eight
/// seconds; so is one that could not be asked.
pub proof fn the_services_answer_is_said(
    c: State,
    label: String,
    message: Message,
    now: u64,
)
    requires
        now <= 0x7fff_ffff_ffff_ffff,
    ensures
        ({
            let next = c.received(Outcome::Accepted, label, now);
            next.busy == c.busy && next.message.spec_text() == label@ && next.notice_until == Some(
                (now + 120000) as u64,
            )
        }),
        ({
            let next = c.received(Outcome::Failed(message), label, now);
            !next.busy && next.message == message && next.notice_until == Some((now + 8000) as u64)
        }),
        ({
            let next = c.unsent(now);
            !next.busy && next.message.spec_text() == "System service is unavailable"@
                && next.notice_until == Some((now + 8000) as u64)
        }),
{
}

/// The section is open while the settings show it. Opening it clears what it said,
/// leaving it drops what waits, and both disarm.
pub proof fn the_section_follows_the_settings(c: State, settings: bool, panel: i32)
    ensures
        ({
            let next = c.followed(settings, panel);
            &&& next.open <==> settings && panel == 6
            &&& next.open == c.open ==> next == c
            &&& next.open != c.open ==> next.armed_until is None && next.busy == c.busy
            &&& next.open && !c.open ==> next.message is Blank && next.notice_until is None
                && next.input == c.input
            &&& !next.open && c.open ==> next.input.len() == 0 && next.message == c.message
        }),
{
}

/// Time disarms recovery and takes a message down, each when it is over, while the
/// section is open; an action that is out keeps its message.
pub proof fn time_disarms_and_takes_messages_down(c: State, now: u64)
    ensures
        ({
            let next = c.expired(now);
            &&& !c.open ==> next == c
            &&& next.busy == c.busy && next.input == c.input && next.open == c.open
            &&& c.open ==> (c.armed_until matches Some(t) ==> if now >= t {
                next.armed_until is None
            } else {
                next.armed_until == Some(t)
            })
            &&& c.open ==> (c.notice_until matches Some(t) ==> if now < t {
                next.message == c.message && next.notice_until == Some(t)
            } else {
                next.notice_until is None && (!c.busy ==> next.message is Blank)
            })
            &&& c.open && c.busy && c.armed_until is None ==> next.message == c.message
        }),
        c.armed(now) <==> (c.armed_until matches Some(t) && now < t),
{
}

/// The section's other words.
pub proof fn the_sections_words(text: String)
    ensures
        Message::Blank.spec_text() == ""@,
        Message::Said(text).spec_text() == text@,
        Message::UnexpectedReply.spec_text() == "Unexpected system service reply"@,
{
}

/// What a first press on recovery says.
pub proof fn recovery_says_what_it_does()
    ensures
        Message::Confirm.spec_text()
            == "Press OK again to restart into recovery. Recovery has no remote UI: it brings up Wi-Fi and SSH and a shell on USB, and the remote stays there until the flag is cleared (docs/device-recovery.md)."@,
{
}

/// At first nothing is armed, asked or said.
pub proof fn at_first_nothing_is_armed()
    ensures
        State::first().input.len() == 0,
        !State::first().busy && !State::first().open,
        State::first().armed_until is None && State::first().notice_until is None,
        State::first().message == Message::Blank,
{
}

} // verus!
