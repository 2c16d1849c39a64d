//! What the player screen's worker asks of the speaker next, and what it tells
//! the screen.
//!
//! The worker keeps one connection. The caller makes each [`Call`], and hands
//! what came of it back as an [`Answer`], together with whether the screen that
//! asked is still up.
use crate::media_player::{key_text, Done, Event, Op, Request, Source};
use crate::sonos::{
    describe, described, AfterSkip, ModeChange, NowPlaying, Problem, Snapshot, SonosError, Track,
    SKIP_READS,
};
use crate::text::same;
use vstd::prelude::*;

verus! {

/// How long a source takes to load before it is worth reading, in milliseconds.
pub const SETTLE_MS: u64 = 600;

/// What a command was answered.
#[derive(Debug)]
pub enum Reply {
    Taken,
    /// The level after a volume key.
    Volume(u8),
    /// Whether the speaker was muted before it was toggled.
    WasMuted(bool),
}

/// What the worker waits for.
#[derive(Debug)]
pub enum Stage {
    Request,
    Connection,
    Sources,
    /// The answer to a command; a source's name where it was one.
    Command(Option<String>),
    /// A source to load.
    Settling,
    Snapshot,
    Artwork(String),
}

/// What the worker is told.
#[derive(Debug)]
pub enum Answer {
    Request(Request),
    Connected(Result<(), SonosError>),
    Sources(Result<Vec<Source>, SonosError>),
    Command(Result<Reply, SonosError>),
    Settled,
    Snapshot(Result<Snapshot, SonosError>),
    /// Whether artwork could be had.
    Artwork(bool),
}

/// What is done next.
#[derive(Debug)]
pub enum Call {
    /// Wait for a request.
    Wait,
    Connect(u32),
    Sources,
    Command(Op),
    /// Wait for a source to load.
    Settle,
    Read,
    Artwork(String),
}

/// What is told to the screen first, and what is done after that.
#[derive(Debug)]
pub struct Step {
    pub send: Option<Event>,
    pub call: Call,
}

/// The worker between two calls.
#[derive(Debug)]
pub struct Worker {
    pub connected: bool,
    /// The artwork that the screen has.
    pub art_sent: Option<String>,
    pub stage: Stage,
}

/// What a command asks of the speaker.
#[derive(Debug)]
pub enum Ask {
    PlayPause,
    /// What the group plays. A read that follows another one waits first.
    Playing { pause: bool },
    Skip(bool),
    Seek(u64),
    Nudge(i8),
    Level,
    IsMuted,
    SetMuted(bool),
    Select(String),
    SetModes(ModeChange),
}

/// What the speaker told.
#[derive(Debug)]
pub enum Told {
    Taken(Result<(), SonosError>),
    Playing(Result<NowPlaying, SonosError>),
    Level(Result<u8, SonosError>),
    Muted(Result<bool, SonosError>),
}

/// How far a command is.
#[derive(Debug)]
pub enum Doing {
    /// One call is all of it.
    Acting,
    /// What plays before a skip is being read.
    BeforeSkip(bool),
    /// The skip is out, from what played before.
    Skipping(Option<Track>),
    /// The group is being read until it has switched.
    Switching(AfterSkip),
    Nudging,
    ReadingLevel,
    ReadingMute,
    /// The mute is being set to the opposite of what it was.
    Muting(bool),
}

/// What follows in a command.
#[derive(Debug)]
pub enum OpStep {
    Ask { ask: Ask, doing: Doing },
    /// The command is over.
    Finish(Result<Reply, SonosError>),
    /// What was told is nothing that was asked.
    Ignore,
}

/// How a command begins. Sources are no command of the speaker.
pub open spec fn op_begun(op: Op) -> OpStep {
    match op {
        Op::PlayPause => OpStep::Ask { ask: Ask::PlayPause, doing: Doing::Acting },
        Op::Skip(next) => OpStep::Ask {
            ask: Ask::Playing { pause: false },
            doing: Doing::BeforeSkip(next),
        },
        Op::Seek(position) => OpStep::Ask { ask: Ask::Seek(position), doing: Doing::Acting },
        Op::Volume(delta) => OpStep::Ask { ask: Ask::Nudge(delta), doing: Doing::Nudging },
        Op::ToggleMute => OpStep::Ask { ask: Ask::IsMuted, doing: Doing::ReadingMute },
        Op::Sources => OpStep::Ignore,
        Op::Select { id, .. } => OpStep::Ask { ask: Ask::Select(id), doing: Doing::Acting },
        Op::Modes(change) => OpStep::Ask { ask: Ask::SetModes(change), doing: Doing::Acting },
    }
}

/// How a command begins.
pub fn begin_op(op: Op) -> (r: OpStep)
    ensures
        r == op_begun(op),
{
    match op {
        Op::PlayPause => OpStep::Ask { ask: Ask::PlayPause, doing: Doing::Acting },
        Op::Skip(next) => OpStep::Ask {
            ask: Ask::Playing { pause: false },
            doing: Doing::BeforeSkip(next),
        },
        Op::Seek(position) => OpStep::Ask { ask: Ask::Seek(position), doing: Doing::Acting },
        Op::Volume(delta) => OpStep::Ask { ask: Ask::Nudge(delta), doing: Doing::Nudging },
        Op::ToggleMute => OpStep::Ask { ask: Ask::IsMuted, doing: Doing::ReadingMute },
        Op::Sources => OpStep::Ignore,
        Op::Select { id, .. } => OpStep::Ask { ask: Ask::Select(id), doing: Doing::Acting },
        Op::Modes(change) => OpStep::Ask { ask: Ask::SetModes(change), doing: Doing::Acting },
    }
}

/// What the group plays, as far as it could be read.
pub open spec fn playing_in(result: Result<NowPlaying, SonosError>) -> Option<NowPlaying> {
    match result {
        Ok(now) => Some(now),
        Err(_) => None,
    }
}

/// What follows a read after a skip.
pub open spec fn switched(reads: AfterSkip, now: Option<NowPlaying>) -> OpStep {
    if reads.reads < SKIP_READS && reads.again(now) {
        OpStep::Ask {
            ask: Ask::Playing { pause: true },
            doing: Doing::Switching(
                AfterSkip { before: reads.before, reads: (reads.reads + 1) as u8, latest: now },
            ),
        }
    } else {
        OpStep::Finish(Ok(Reply::Taken))
    }
}

/// What follows what the speaker told.
pub open spec fn op_told(doing: Doing, told: Told) -> OpStep {
    match (doing, told) {
        (Doing::Acting, Told::Taken(Ok(_))) => OpStep::Finish(Ok(Reply::Taken)),
        (Doing::Acting, Told::Taken(Err(error))) => OpStep::Finish(Err(error)),
        (Doing::BeforeSkip(next), Told::Playing(result)) => OpStep::Ask {
            ask: Ask::Skip(next),
            doing: Doing::Skipping(
                match playing_in(result) {
                    Some(now) => now.current,
                    None => None,
                },
            ),
        },
        (Doing::Skipping(before), Told::Taken(Ok(_))) => OpStep::Ask {
            ask: Ask::Playing { pause: false },
            doing: Doing::Switching(AfterSkip { before, reads: 0, latest: None }),
        },
        (Doing::Skipping(_), Told::Taken(Err(error))) => OpStep::Finish(Err(error)),
        (Doing::Switching(reads), Told::Playing(result)) => switched(reads, playing_in(result)),
        (Doing::Nudging, Told::Taken(Ok(_))) => OpStep::Ask {
            ask: Ask::Level,
            doing: Doing::ReadingLevel,
        },
        (Doing::Nudging, Told::Taken(Err(error))) => OpStep::Finish(Err(error)),
        (Doing::ReadingLevel, Told::Level(Ok(level))) => OpStep::Finish(Ok(Reply::Volume(level))),
        (Doing::ReadingLevel, Told::Level(Err(error))) => OpStep::Finish(Err(error)),
        (Doing::ReadingMute, Told::Muted(Ok(was))) => OpStep::Ask {
            ask: Ask::SetMuted(!was),
            doing: Doing::Muting(was),
        },
        (Doing::ReadingMute, Told::Muted(Err(error))) => OpStep::Finish(Err(error)),
        (Doing::Muting(was), Told::Taken(Ok(_))) => OpStep::Finish(Ok(Reply::WasMuted(was))),
        (Doing::Muting(_), Told::Taken(Err(error))) => OpStep::Finish(Err(error)),
        _ => OpStep::Ignore,
    }
}

fn skipped(mut reads: AfterSkip, now: Option<NowPlaying>) -> (r: OpStep)
    ensures
        r == switched(reads, now),
{
    if reads.reads >= SKIP_READS {
        return OpStep::Finish(Ok(Reply::Taken));
    }
    if reads.read(now) {
        OpStep::Ask { ask: Ask::Playing { pause: true }, doing: Doing::Switching(reads) }
    } else {
        OpStep::Finish(Ok(Reply::Taken))
    }
}

/// Carry a command on with what the speaker told. The level is read once the
/// nudge was taken; the mute is set to the opposite of what it was; after a skip
/// the group is read until it plays something else.
pub fn told_op(doing: Doing, told: Told) -> (r: OpStep)
    ensures
        r == op_told(doing, told),
{
    match (doing, told) {
        (Doing::Acting, Told::Taken(result)) => match result {
            Ok(_) => OpStep::Finish(Ok(Reply::Taken)),
            Err(error) => OpStep::Finish(Err(error)),
        },
        (Doing::BeforeSkip(next), Told::Playing(result)) => {
            let before = match result {
                Ok(now) => now.current,
                Err(_) => None,
            };
            OpStep::Ask { ask: Ask::Skip(next), doing: Doing::Skipping(before) }
        },
        (Doing::Skipping(before), Told::Taken(result)) => match result {
            Ok(_) => OpStep::Ask {
                ask: Ask::Playing { pause: false },
                doing: Doing::Switching(AfterSkip::new(before)),
            },
            Err(error) => OpStep::Finish(Err(error)),
        },
        (Doing::Switching(reads), Told::Playing(result)) => {
            let now = match result {
                Ok(now) => Some(now),
                Err(_) => None,
            };
            skipped(reads, now)
        },
        (Doing::Nudging, Told::Taken(result)) => match result {
            Ok(_) => OpStep::Ask { ask: Ask::Level, doing: Doing::ReadingLevel },
            Err(error) => OpStep::Finish(Err(error)),
        },
        (Doing::ReadingLevel, Told::Level(result)) => match result {
            Ok(level) => OpStep::Finish(Ok(Reply::Volume(level))),
            Err(error) => OpStep::Finish(Err(error)),
        },
        (Doing::ReadingMute, Told::Muted(result)) => match result {
            Ok(was) => OpStep::Ask { ask: Ask::SetMuted(!was), doing: Doing::Muting(was) },
            Err(error) => OpStep::Finish(Err(error)),
        },
        (Doing::Muting(was), Told::Taken(result)) => match result {
            Ok(_) => OpStep::Finish(Ok(Reply::WasMuted(was))),
            Err(error) => OpStep::Finish(Err(error)),
        },
        _ => OpStep::Ignore,
    }
}

/// Whether something that was told is a failure.
pub open spec fn told_failure(told: Told) -> bool {
    match told {
        Told::Taken(result) => result is Err,
        Told::Playing(result) => result is Err,
        Told::Level(result) => result is Err,
        Told::Muted(result) => result is Err,
    }
}

/// A mute is set to the opposite of what was read, and what was read is what the
/// screen is told; without a reading nothing is set.
pub proof fn a_mute_is_turned_over(told: Told)
    ensures
        match told {
            Told::Muted(Ok(was)) => {
                &&& op_told(Doing::ReadingMute, told) == (OpStep::Ask {
                    ask: Ask::SetMuted(!was),
                    doing: Doing::Muting(was),
                })
                &&& op_told(Doing::Muting(was), Told::Taken(Ok(()))) == OpStep::Finish(
                    Ok(Reply::WasMuted(was)),
                )
            },
            _ => !(op_told(Doing::ReadingMute, told) is Ask),
        },
{
}

/// A command that failed asks nothing more of the speaker, but for the reads
/// around a skip, which only time it.
pub proof fn a_failed_command_is_over(doing: Doing, told: Told)
    requires
        told_failure(told),
        !(doing is BeforeSkip),
    ensures
        !(op_told(doing, told) is Ask),
{
}

/// What a command's answer is to the screen.
pub open spec fn outcome_of(name: Option<String>, reply: Result<Reply, SonosError>) -> Result<
    Done,
    Problem,
> {
    match reply {
        Ok(Reply::Taken) => Ok(
            match name {
                Some(name) => Done::Playing(name),
                None => Done::Quiet,
            },
        ),
        Ok(Reply::Volume(volume)) => Ok(Done::Volume(volume)),
        Ok(Reply::WasMuted(was)) => Ok(
            if was {
                Done::Unmuted
            } else {
                Done::Muted
            },
        ),
        Err(SonosError::Cancelled { .. }) => Ok(Done::Quiet),
        Err(error) => Err(described(error)),
    }
}

/// What a command's answer is to the screen. One that was called off is nothing
/// to speak of.
pub fn outcome(name: Option<String>, reply: Result<Reply, SonosError>) -> (r: Result<
    Done,
    Problem,
>)
    ensures
        r == outcome_of(name, reply),
{
    match reply {
        Ok(reply) => Ok(
            match reply {
                Reply::Taken => match name {
                    Some(name) => Done::Playing(name),
                    None => Done::Quiet,
                },
                Reply::Volume(volume) => Done::Volume(volume),
                Reply::WasMuted(was) => if was {
                    Done::Unmuted
                } else {
                    Done::Muted
                },
            },
        ),
        Err(error) => match error {
            SonosError::Cancelled { .. } => Ok(Done::Quiet),
            error => Err(describe(error)),
        },
    }
}

/// Whether a command could not reach the speaker.
pub open spec fn lost(outcome: Result<Done, Problem>) -> bool {
    outcome matches Err(problem) && problem.spec_text() == Problem::Unreachable.spec_text()
}

fn is_lost(outcome: &Result<Done, Problem>) -> (r: bool)
    ensures
        r == lost(*outcome),
{
    match outcome {
        Ok(_) => false,
        Err(problem) => same(problem.text().as_str(), Problem::Unreachable.text().as_str()),
    }
}

/// A worker's next step.
pub open spec fn stepping(w: Worker, stage: Stage, call: Call) -> (Worker, Step) {
    (Worker { stage, ..w }, Step { send: None, call })
}

/// A worker that tells the screen something and waits.
pub open spec fn telling(w: Worker, event: Event) -> (Worker, Step) {
    (Worker { stage: Stage::Request, ..w }, Step { send: Some(event), call: Call::Wait })
}

/// A worker that reads the group, where it is connected and the screen is still
/// up.
pub open spec fn reading(w: Worker, current: bool) -> (Worker, Step) {
    if !w.connected {
        telling(w, Event::State(Err(Problem::NotConnected)))
    } else if !current {
        stepping(w, Stage::Request, Call::Wait)
    } else {
        stepping(w, Stage::Snapshot, Call::Read)
    }
}

/// What the name of a source is, where a command selects one.
pub open spec fn selecting(op: Op) -> Option<String> {
    match op {
        Op::Select { name, .. } => Some(name),
        _ => None,
    }
}

/// What the worker does about a request.
pub open spec fn requested(w: Worker, request: Request, current: bool) -> (Worker, Step) {
    if !current {
        stepping(w, Stage::Request, Call::Wait)
    } else {
        match request {
            Request::Close => stepping(
                Worker { connected: false, art_sent: None, ..w },
                Stage::Request,
                Call::Wait,
            ),
            Request::Open { host, known_art } => stepping(
                Worker { art_sent: known_art, ..w },
                Stage::Connection,
                Call::Connect(host),
            ),
            Request::Refresh => reading(w, current),
            Request::Command(op) => if !w.connected {
                telling(w, Event::Done(Err(Problem::NotConnected)))
            } else if op is Sources {
                stepping(w, Stage::Sources, Call::Sources)
            } else {
                stepping(w, Stage::Command(selecting(op)), Call::Command(op))
            },
        }
    }
}

/// What the worker does once a command has been answered.
pub open spec fn commanded(
    w: Worker,
    name: Option<String>,
    outcome: Result<Done, Problem>,
    current: bool,
) -> (Worker, Step) {
    if lost(outcome) {
        telling(Worker { connected: false, ..w }, Event::Done(outcome))
    } else if name is Some {
        (
            Worker { stage: Stage::Settling, ..w },
            Step { send: Some(Event::Done(outcome)), call: Call::Settle },
        )
    } else if current {
        (
            Worker { stage: Stage::Snapshot, ..w },
            Step { send: Some(Event::Done(outcome)), call: Call::Read },
        )
    } else {
        telling(w, Event::Done(outcome))
    }
}

/// What the worker does once the group has been read: it tells the screen, and
/// gets the artwork that the screen does not have.
pub open spec fn seen(w: Worker, s: Snapshot, current: bool) -> (Worker, Step) {
    let art = match s.now.current {
        Some(t) => t.image_url@,
        None => Seq::empty(),
    };
    match s.now.current {
        Some(t) => if art.len() > 0 && art != key_text(w.art_sent) && current {
            (
                Worker { stage: Stage::Artwork(t.image_url), ..w },
                Step { send: Some(Event::State(Ok(s))), call: Call::Artwork(t.image_url) },
            )
        } else if art.len() == 0 {
            telling(Worker { art_sent: None, ..w }, Event::State(Ok(s)))
        } else {
            telling(w, Event::State(Ok(s)))
        },
        None => telling(Worker { art_sent: None, ..w }, Event::State(Ok(s))),
    }
}

/// What the worker does about an answer. One that it did not wait for changes
/// nothing.
pub open spec fn worked(w: Worker, answer: Answer, current: bool) -> (Worker, Step) {
    match (w.stage, answer) {
        (Stage::Request, Answer::Request(request)) => requested(w, request, current),
        (Stage::Connection, Answer::Connected(Ok(_))) => reading(
            Worker { connected: true, ..w },
            current,
        ),
        (Stage::Connection, Answer::Connected(Err(error))) => telling(
            Worker { connected: false, ..w },
            Event::State(Err(described(error))),
        ),
        (Stage::Sources, Answer::Sources(Ok(sources))) => telling(
            w,
            Event::Sources(Ok(sources)),
        ),
        (Stage::Sources, Answer::Sources(Err(error))) => telling(
            w,
            Event::Sources(Err(described(error))),
        ),
        (Stage::Command(name), Answer::Command(reply)) => commanded(
            w,
            name,
            outcome_of(name, reply),
            current,
        ),
        (Stage::Settling, Answer::Settled) => reading(w, current),
        (Stage::Snapshot, Answer::Snapshot(Ok(s))) => seen(w, s, current),
        (Stage::Snapshot, Answer::Snapshot(Err(error))) => telling(
            w,
            Event::State(Err(described(error))),
        ),
        (Stage::Artwork(art), Answer::Artwork(found)) => telling(
            Worker { art_sent: Some(art), ..w },
            Event::Art { key: art, found },
        ),
        _ => (w, Step { send: None, call: Call::Wait }),
    }
}

impl Worker {
    /// A worker without a connection.
    pub fn new() -> (r: Worker)
        ensures
            r == (Worker { connected: false, art_sent: None, stage: Stage::Request }),
    {
        Worker { connected: false, art_sent: None, stage: Stage::Request }
    }

    fn tell(&mut self, event: Event) -> (r: Step)
        ensures
            (*final(self), r) == telling(*old(self), event),
    {
        self.stage = Stage::Request;
        Step { send: Some(event), call: Call::Wait }
    }

    fn go(&mut self, stage: Stage, call: Call) -> (r: Step)
        ensures
            (*final(self), r) == stepping(*old(self), stage, call),
    {
        self.stage = stage;
        Step { send: None, call }
    }

    fn refresh(&mut self, current: bool) -> (r: Step)
        ensures
            (*final(self), r) == reading(*old(self), current),
    {
        if !self.connected {
            self.tell(Event::State(Err(Problem::NotConnected)))
        } else if !current {
            self.go(Stage::Request, Call::Wait)
        } else {
            self.go(Stage::Snapshot, Call::Read)
        }
    }

    fn request(&mut self, request: Request, current: bool) -> (r: Step)
        ensures
            (*final(self), r) == requested(*old(self), request, current),
    {
        if !current {
            return self.go(Stage::Request, Call::Wait);
        }
        match request {
            Request::Close => {
                self.connected = false;
                self.art_sent = None;
                self.go(Stage::Request, Call::Wait)
            },
            Request::Open { host, known_art } => {
                self.art_sent = known_art;
                self.go(Stage::Connection, Call::Connect(host))
            },
            Request::Refresh => self.refresh(current),
            Request::Command(op) => {
                if !self.connected {
                    return self.tell(Event::Done(Err(Problem::NotConnected)));
                }
                match op {
                    Op::Sources => self.go(Stage::Sources, Call::Sources),
                    Op::Select { id, name } => {
                        let stage = Stage::Command(Some(name.clone()));
                        self.go(stage, Call::Command(Op::Select { id, name }))
                    },
                    op => self.go(Stage::Command(None), Call::Command(op)),
                }
            },
        }
    }

    fn snapshot(&mut self, s: Snapshot, current: bool) -> (r: Step)
        ensures
            (*final(self), r) == seen(*old(self), s, current),
    {
        let art = match &s.now.current {
            Some(t) => if t.image_url.as_str().unicode_len() == 0 {
                None
            } else {
                Some(t.image_url.clone())
            },
            None => None,
        };
        match art {
            Some(art) => {
                let known = match &self.art_sent {
                    Some(sent) => same(sent.as_str(), art.as_str()),
                    None => false,
                };
                if !known && current {
                    self.stage = Stage::Artwork(art.clone());
                    return Step { send: Some(Event::State(Ok(s))), call: Call::Artwork(art) };
                }
            },
            None => {
                self.art_sent = None;
            },
        }
        self.tell(Event::State(Ok(s)))
    }

    /// Take an answer, while the screen that asked is still up or not. Says
    /// what to tell the screen and what to do next.
    pub fn advance(&mut self, answer: Answer, current: bool) -> (r: Step)
        ensures
            (*final(self), r) == worked(*old(self), answer, current),
    {
        let mut stage = Stage::Request;
        std::mem::swap(&mut stage, &mut self.stage);
        match (stage, answer) {
            (Stage::Request, Answer::Request(request)) => self.request(request, current),
            (Stage::Connection, Answer::Connected(result)) => match result {
                Ok(_) => {
                    self.connected = true;
                    self.refresh(current)
                },
                Err(error) => {
                    self.connected = false;
                    self.tell(Event::State(Err(describe(error))))
                },
            },
            (Stage::Sources, Answer::Sources(result)) => match result {
                Ok(sources) => self.tell(Event::Sources(Ok(sources))),
                Err(error) => self.tell(Event::Sources(Err(describe(error)))),
            },
            (Stage::Command(name), Answer::Command(reply)) => {
                let selects = name.is_some();
                let outcome = outcome(name, reply);
                if is_lost(&outcome) {
                    self.connected = false;
                    self.tell(Event::Done(outcome))
                } else if selects {
                    self.stage = Stage::Settling;
                    Step { send: Some(Event::Done(outcome)), call: Call::Settle }
                } else if current {
                    self.stage = Stage::Snapshot;
                    Step { send: Some(Event::Done(outcome)), call: Call::Read }
                } else {
                    self.tell(Event::Done(outcome))
                }
            },
            (Stage::Settling, Answer::Settled) => self.refresh(current),
            (Stage::Snapshot, Answer::Snapshot(result)) => match result {
                Ok(s) => self.snapshot(s, current),
                Err(error) => self.tell(Event::State(Err(describe(error)))),
            },
            (Stage::Artwork(art), Answer::Artwork(found)) => {
                self.art_sent = Some(art.clone());
                self.tell(Event::Art { key: art, found })
            },
            (stage, _) => {
                self.stage = stage;
                Step { send: None, call: Call::Wait }
            },
        }
    }
}

/// Nothing is asked of a speaker for a screen that has been left.
pub proof fn a_screen_that_was_left_asks_nothing(w: Worker, request: Request)
    requires
        w.stage is Request,
    ensures
        worked(w, Answer::Request(request), false) == (w, Step { send: None, call: Call::Wait }),
{
}

/// A speaker that a command could not reach is not asked again until the screen
/// connects anew.
pub proof fn a_lost_speaker_is_asked_no_more(
    w: Worker,
    name: Option<String>,
    reply: Result<Reply, SonosError>,
    request: Request,
    current: bool,
)
    requires
        w.stage == Stage::Command(name),
        lost(outcome_of(name, reply)),
        !(request is Open),
    ensures
        ({
            let after = worked(w, Answer::Command(reply), current).0;
            worked(after, Answer::Request(request), current).1.call is Wait
        }),
{
}

/// Artwork that the screen has is not fetched again.
pub proof fn artwork_is_fetched_once(w: Worker, s: Snapshot, track: Track, current: bool)
    requires
        w.stage is Snapshot,
        s.now.current == Some(track),
        track.image_url@ == key_text(w.art_sent),
    ensures
        worked(w, Answer::Snapshot(Ok(s)), current).1.call is Wait,
{
}

/// A command begins by asking the speaker for just that: a skip for what plays
/// first, a volume for the nudge of that size, a mute for how it is.
pub proof fn a_command_begins_with_its_own_question(op: Op)
    ensures
        match op {
            Op::PlayPause => op_begun(op) matches OpStep::Ask { ask, .. } && ask == Ask::PlayPause,
            Op::Skip(next) => op_begun(op) matches OpStep::Ask { ask, doing } && ask
                == (Ask::Playing { pause: false }) && doing == Doing::BeforeSkip(next),
            Op::Seek(to) => op_begun(op) matches OpStep::Ask { ask, .. } && ask == Ask::Seek(to),
            Op::Volume(by) => op_begun(op) matches OpStep::Ask { ask, .. } && ask == Ask::Nudge(by),
            Op::ToggleMute => op_begun(op) matches OpStep::Ask { ask, .. } && ask == Ask::IsMuted,
            Op::Sources => op_begun(op) is Ignore,
            Op::Select { id, .. } => op_begun(op) matches OpStep::Ask { ask, .. } && ask
                == Ask::Select(id),
            Op::Modes(change) => op_begun(op) matches OpStep::Ask { ask, .. } && ask
                == Ask::SetModes(change),
        },
{
}

/// A skip goes the way that was pressed, whatever was read before it, and is over
/// once another track plays; the group is read again with a pause while it is the
/// same.
pub proof fn a_skip_goes_the_way_that_was_pressed(
    next: bool,
    read: Result<NowPlaying, SonosError>,
    before: Option<Track>,
    now: NowPlaying,
    reads: AfterSkip,
)
    requires
        reads.before == before,
        reads.reads < 5,
    ensures
        op_told(Doing::BeforeSkip(next), Told::Playing(read)) matches OpStep::Ask { ask, doing }
            && ask == Ask::Skip(next) && (read matches Ok(n) ==> doing == Doing::Skipping(
            n.current,
        )) && (read is Err ==> doing == Doing::Skipping(None)),
        op_told(Doing::Skipping(before), Told::Taken(Ok(()))) matches OpStep::Ask { ask, doing }
            && ask == (Ask::Playing { pause: false }) && (doing matches Doing::Switching(r)
            && r.before == before && r.reads == 0),
        ({
            let after = op_told(Doing::Switching(reads), Told::Playing(Ok(now)));
            if crate::sonos::still(before, now.current) {
                after matches OpStep::Ask { ask, doing } && ask == (Ask::Playing { pause: true })
                    && (doing matches Doing::Switching(r) && r.before == before && r.reads
                    == reads.reads + 1)
            } else {
                after == OpStep::Finish(Ok(Reply::Taken))
            }
        }),
{
}

/// A volume command reads the level back once the nudge was taken, and that level
/// is what is told; any other command that was taken is just over.
pub proof fn a_volume_command_tells_the_level(level: u8)
    ensures
        op_told(Doing::Nudging, Told::Taken(Ok(()))) matches OpStep::Ask { ask, doing } && ask
            == Ask::Level && doing is ReadingLevel,
        op_told(Doing::ReadingLevel, Told::Level(Ok(level))) == OpStep::Finish(
            Ok(Reply::Volume(level)),
        ),
        op_told(Doing::Acting, Told::Taken(Ok(()))) == OpStep::Finish(Ok(Reply::Taken)),
{
}

/// A command that failed ends with the error that the speaker gave.
pub proof fn a_command_fails_with_the_speakers_error(error: SonosError, was: bool, b: Option<Track>)
    ensures
        op_told(Doing::Acting, Told::Taken(Err(error))) == OpStep::Finish(Err(error)),
        op_told(Doing::Skipping(b), Told::Taken(Err(error))) == OpStep::Finish(Err(error)),
        op_told(Doing::Nudging, Told::Taken(Err(error))) == OpStep::Finish(Err(error)),
        op_told(Doing::ReadingLevel, Told::Level(Err(error))) == OpStep::Finish(Err(error)),
        op_told(Doing::ReadingMute, Told::Muted(Err(error))) == OpStep::Finish(Err(error)),
        op_told(Doing::Muting(was), Told::Taken(Err(error))) == OpStep::Finish(Err(error)),
{
}

/// What a command came to: a source by its name, a level as it was read, muted
/// where it was not and unmuted where it was, nothing for one that was called off,
/// and the error's own words otherwise.
pub proof fn what_a_command_came_to(
    name: Option<String>,
    source: String,
    level: u8,
    sentence: String,
    error: SonosError,
)
    ensures
        outcome_of(None, Ok(Reply::Taken)) == Ok::<Done, Problem>(Done::Quiet),
        outcome_of(Some(source), Ok(Reply::Taken)) == Ok::<Done, Problem>(Done::Playing(source)),
        outcome_of(name, Ok(Reply::Volume(level))) == Ok::<Done, Problem>(Done::Volume(level)),
        outcome_of(name, Ok(Reply::WasMuted(false))) == Ok::<Done, Problem>(Done::Muted),
        outcome_of(name, Ok(Reply::WasMuted(true))) == Ok::<Done, Problem>(Done::Unmuted),
        outcome_of(name, Err(SonosError::Cancelled { sentence })) == Ok::<Done, Problem>(
            Done::Quiet,
        ),
        !(error is Cancelled) ==> outcome_of(name, Err(error)) == Err::<Done, Problem>(
            described(error),
        ),
        lost(outcome_of(name, Err(SonosError::Transport))),
{
}

/// What a screen asks for is what the speaker is asked: its own address, a read,
/// the sources, or that very command. Without a connection that is said instead.
pub proof fn a_request_is_carried_to_the_speaker(
    w: Worker,
    host: u32,
    art: Option<String>,
    op: Op,
)
    requires
        w.stage is Request,
    ensures
        ({
            let (after, step) = worked(
                w,
                Answer::Request(Request::Open { host, known_art: art }),
                true,
            );
            step.call == Call::Connect(host) && step.send is None && after.stage is Connection
                && after.art_sent == art
        }),
        ({
            let (after, step) = worked(w, Answer::Request(Request::Refresh), true);
            if w.connected {
                step.call is Read && step.send is None && after.stage is Snapshot
            } else {
                step.call is Wait && step.send == Some(Event::State(Err(Problem::NotConnected)))
            }
        }),
        ({
            let (after, step) = worked(w, Answer::Request(Request::Command(op)), true);
            if !w.connected {
                step.call is Wait && step.send == Some(Event::Done(Err(Problem::NotConnected)))
            } else if op is Sources {
                step.call is Sources && step.send is None && after.stage is Sources
            } else {
                step.call == Call::Command(op) && step.send is None && (match op {
                    Op::Select { name, .. } => after.stage == Stage::Command(Some(name)),
                    _ => after.stage == Stage::Command(None),
                })
            }
        }),
        ({
            let (after, step) = worked(w, Answer::Request(Request::Close), true);
            !after.connected && after.art_sent is None && step.call is Wait && step.send is None
        }),
{
}

/// A connection that was made is read at once, and one that failed is said; what
/// is then read, listed or fetched is told to the screen as it came.
pub proof fn what_the_speaker_answers_is_told(
    w: Worker,
    error: SonosError,
    sources: Vec<Source>,
    s: Snapshot,
    art: String,
    found: bool,
    current: bool,
)
    ensures
        w.stage is Connection ==> {
            let (good, step) = worked(w, Answer::Connected(Ok(())), true);
            let (bad, said) = worked(w, Answer::Connected(Err(error)), current);
            &&& good.connected && step.call is Read
            &&& !bad.connected && said.call is Wait && said.send == Some(
                Event::State(Err(described(error))),
            )
        },
        w.stage is Sources ==> {
            &&& worked(w, Answer::Sources(Ok(sources)), current).1.send == Some(
                Event::Sources(Ok(sources)),
            )
            &&& worked(w, Answer::Sources(Err(error)), current).1.send == Some(
                Event::Sources(Err(described(error))),
            )
        },
        w.stage is Snapshot ==> {
            &&& worked(w, Answer::Snapshot(Ok(s)), current).1.send == Some(Event::State(Ok(s)))
            &&& worked(w, Answer::Snapshot(Err(error)), current).1.send == Some(
                Event::State(Err(described(error))),
            )
            &&& worked(w, Answer::Snapshot(Err(error)), current).0.connected == w.connected
        },
        w.stage == Stage::Artwork(art) ==> {
            let (after, step) = worked(w, Answer::Artwork(found), current);
            step.send == Some(Event::Art { key: art, found }) && after.art_sent == Some(art)
                && step.call is Wait
        },
{
}

/// A command's outcome is told at once; the group is then read, a source that was
/// started after a moment; and a speaker that cannot be reached is let go.
pub proof fn a_commands_outcome_is_told_and_the_group_read(
    w: Worker,
    name: Option<String>,
    reply: Result<Reply, SonosError>,
    current: bool,
)
    requires
        w.stage == Stage::Command(name),
    ensures
        ({
            let (after, step) = worked(w, Answer::Command(reply), current);
            &&& step.send == Some(Event::Done(outcome_of(name, reply)))
            &&& reply matches Err(SonosError::Transport) ==> !after.connected && step.call is Wait
            &&& reply is Ok && name is Some ==> after.connected == w.connected
                && step.call is Settle
            &&& reply is Ok && name is None && current ==> step.call is Read && after.connected
                == w.connected
            &&& reply is Ok && name is None && !current ==> step.call is Wait
        }),
{
}

/// Artwork that the screen does not have is fetched, from the address of the track
/// that plays; a track without any lets the last be forgotten.
pub proof fn new_artwork_is_fetched(w: Worker, s: Snapshot, track: Track)
    requires
        w.stage is Snapshot,
        s.now.current == Some(track),
        track.image_url@ != key_text(w.art_sent),
    ensures
        track.image_url@.len() > 0 ==> worked(w, Answer::Snapshot(Ok(s)), true).1.call
            == Call::Artwork(track.image_url),
        track.image_url@.len() == 0 ==> worked(w, Answer::Snapshot(Ok(s)), true).0.art_sent is None,
{
}

/// A source that was started has six tenths of a second before it is read.
pub proof fn a_source_settles_first()
    ensures
        SETTLE_MS == 600,
{
}

} // verus!
