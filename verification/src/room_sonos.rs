//! Sonos from the room list: what the keys mean while a speaker's row is
//! highlighted, the source picker, and the card that says what happened.
//!
//! The controller decides and remembers. The caller draws, hands each
//! [`Request`] to the one worker, and drives [`Worker`] there.
use crate::lights::{device_at, row_device};
use crate::media_player::Source;
use crate::model::{Config, Device, Integration};
use crate::num::{clamp, clamped, later, later_than, next_generation, wrapped};
use crate::sonos::SonosError;
use crate::text::{ipv4, ipv4_of, same};
use std::collections::VecDeque;
use vstd::prelude::*;

verus! {

/// The title that the source picker is shown under.
pub const CHOOSER_TITLE: &'static str = "SONOS SOURCES";

/// One press of a volume key.
pub const VOLUME_STEP: i8 = 2;

/// The most that a held key may move the volume in one request.
pub const VOLUME_BURST: i8 = 20;

/// How long the cards stay, in milliseconds.
pub const VOLUME_CARD_MS: u64 = 1500;

pub const CARD_MS: u64 = 2000;

pub const ERROR_CARD_MS: u64 = 4000;

pub const SEARCH_CARD_MS: u64 = 8000;

/// A speaker on a row.
#[derive(Debug)]
pub struct Target {
    pub id: String,
    pub name: String,
    /// The speaker's IPv4 address.
    pub host: u32,
}

impl Target {
    /// The same speaker once more.
    pub fn copy(&self) -> (r: Target)
        ensures
            r == *self,
    {
        Target { id: self.id.clone(), name: self.name.clone(), host: self.host }
    }

    /// Whether two speakers are told apart by nothing.
    pub open spec fn alike(self, other: Target) -> bool {
        self.id@ == other.id@ && self.name@ == other.name@ && self.host == other.host
    }

    /// Whether two speakers are told apart by nothing.
    pub fn same_as(&self, other: &Target) -> (r: bool)
        ensures
            r == self.alike(*other),
    {
        same(self.id.as_str(), other.id.as_str()) && same(
            self.name.as_str(),
            other.name.as_str(),
        ) && self.host == other.host
    }
}

/// What a speaker is told to do.
#[derive(Debug)]
pub enum Op {
    Volume(i8),
    ToggleMute,
    Skip(bool),
    Sources,
    Select { id: String, name: String },
}

/// Work for the worker.
#[derive(Debug)]
pub struct Request {
    pub generation: u64,
    pub target: Target,
    pub op: Op,
}

/// What happened, or is about to.
#[derive(Debug)]
pub enum Feedback {
    Volume { speaker: String, level: u8 },
    Muted { speaker: String },
    Unmuted { speaker: String },
    Skipped { speaker: String, next: bool },
    Playing { source: String, speaker: String },
    Finding { speaker: String },
    Starting { source: String, speaker: String },
    NoSources { speaker: String },
    Failed { speaker: String, error: SonosError },
}

/// A feedback card: the bold line, the caption above it, and a volume level
/// where there is a meter to draw.
#[derive(Debug)]
pub struct Card {
    pub name: String,
    pub caption: String,
    pub volume: Option<u8>,
}

/// The bold line of an error's card.
pub open spec fn problem_text(error: SonosError) -> Seq<char> {
    match error {
        SonosError::NotCoordinator { coordinator } => "Control playback on "@ + coordinator@,
        SonosError::Transport => "Cannot reach the speaker"@,
        SonosError::Cancelled { sentence } => sentence@,
        SonosError::Api { code, sentence } => if code@ == "ERROR_PLAYBACK_NO_CONTENT"@ {
            "Sonos found nothing to play there"@
        } else {
            sentence@
        },
        SonosError::Other { sentence } => sentence@,
    }
}

/// The caption of an error's card: the speaker, and that it follows another
/// where that is the trouble.
pub open spec fn problem_caption(speaker: Seq<char>, error: SonosError) -> Seq<char> {
    if error is NotCoordinator {
        speaker + " is grouped"@
    } else {
        speaker
    }
}

impl Feedback {
    /// The bold line.
    pub open spec fn spec_name(self) -> Seq<char> {
        match self {
            Feedback::Volume { speaker, .. } => speaker@,
            Feedback::Muted { speaker } => speaker@,
            Feedback::Unmuted { speaker } => speaker@,
            Feedback::Skipped { speaker, .. } => speaker@,
            Feedback::Playing { source, .. } => source@,
            Feedback::Finding { speaker } => speaker@,
            Feedback::Starting { source, .. } => source@,
            Feedback::NoSources { .. } => "Add favourites in the Sonos app"@,
            Feedback::Failed { error, .. } => problem_text(error),
        }
    }

    /// The caption above it.
    pub open spec fn spec_caption(self) -> Seq<char> {
        match self {
            Feedback::Volume { .. } => "Volume"@,
            Feedback::Muted { .. } => "Muted"@,
            Feedback::Unmuted { .. } => "Unmuted"@,
            Feedback::Skipped { next, .. } => if next {
                "Next track"@
            } else {
                "Previous track"@
            },
            Feedback::Playing { speaker, .. } => "Playing on "@ + speaker@,
            Feedback::Finding { .. } => "Finding Sonos sources…"@,
            Feedback::Starting { speaker, .. } => "Starting on "@ + speaker@ + "…"@,
            Feedback::NoSources { speaker } => "No sources for "@ + speaker@,
            Feedback::Failed { speaker, error } => problem_caption(speaker@, error),
        }
    }

    /// The level on the meter.
    pub open spec fn spec_volume(self) -> Option<u8> {
        match self {
            Feedback::Volume { level, .. } => Some(level),
            _ => None,
        }
    }

    /// The card.
    pub fn card(&self) -> (r: Card)
        ensures
            r.name@ == self.spec_name(),
            r.caption@ == self.spec_caption(),
            r.volume == self.spec_volume(),
    {
        match self {
            Feedback::Volume { speaker, level } => Card {
                name: speaker.clone(),
                caption: "Volume".to_owned(),
                volume: Some(*level),
            },
            Feedback::Muted { speaker } => Card {
                name: speaker.clone(),
                caption: "Muted".to_owned(),
                volume: None,
            },
            Feedback::Unmuted { speaker } => Card {
                name: speaker.clone(),
                caption: "Unmuted".to_owned(),
                volume: None,
            },
            Feedback::Skipped { speaker, next } => Card {
                name: speaker.clone(),
                caption: if *next {
                    "Next track".to_owned()
                } else {
                    "Previous track".to_owned()
                },
                volume: None,
            },
            Feedback::Playing { source, speaker } => {
                let mut caption = "Playing on ".to_owned();
                caption.append(speaker.as_str());
                Card { name: source.clone(), caption, volume: None }
            },
            Feedback::Finding { speaker } => Card {
                name: speaker.clone(),
                caption: "Finding Sonos sources…".to_owned(),
                volume: None,
            },
            Feedback::Starting { source, speaker } => {
                let mut caption = "Starting on ".to_owned();
                caption.append(speaker.as_str());
                caption.append("…");
                Card { name: source.clone(), caption, volume: None }
            },
            Feedback::NoSources { speaker } => {
                let mut caption = "No sources for ".to_owned();
                caption.append(speaker.as_str());
                Card { name: "Add favourites in the Sonos app".to_owned(), caption, volume: None }
            },
            Feedback::Failed { speaker, error } => describe(speaker.as_str(), error),
        }
    }
}

/// An error's card: the problem in bold, the speaker as its caption.
pub fn describe(name: &str, error: &SonosError) -> (r: Card)
    ensures
        r.name@ == problem_text(*error),
        r.caption@ == problem_caption(name@, *error),
        r.volume is None,
{
    let mut caption = name.to_owned();
    let line = match error {
        SonosError::NotCoordinator { coordinator } => {
            caption.append(" is grouped");
            let mut line = "Control playback on ".to_owned();
            line.append(coordinator.as_str());
            line
        },
        SonosError::Transport => "Cannot reach the speaker".to_owned(),
        SonosError::Cancelled { sentence } => sentence.clone(),
        SonosError::Api { code, sentence } => if same(
            code.as_str(),
            "ERROR_PLAYBACK_NO_CONTENT",
        ) {
            "Sonos found nothing to play there".to_owned()
        } else {
            sentence.clone()
        },
        SonosError::Other { sentence } => sentence.clone(),
    };
    Card { name: line, caption, volume: None }
}

/// The work that a key means. Skips and mute never repeat: a held channel key
/// must not run through an album.
pub open spec fn work_of(command: Seq<char>, repeat: bool) -> Option<Op> {
    if command == "volume-up"@ {
        Some(Op::Volume(VOLUME_STEP))
    } else if command == "volume-down"@ {
        Some(Op::Volume((-VOLUME_STEP) as i8))
    } else if command == "mute"@ && !repeat {
        Some(Op::ToggleMute)
    } else if command == "next"@ && !repeat {
        Some(Op::Skip(true))
    } else if command == "previous"@ && !repeat {
        Some(Op::Skip(false))
    } else {
        None
    }
}

/// The work that a key means.
pub fn operation(command: &str, repeat: bool) -> (r: Option<Op>)
    ensures
        r == work_of(command@, repeat),
{
    if same(command, "volume-up") {
        Some(Op::Volume(VOLUME_STEP))
    } else if same(command, "volume-down") {
        Some(Op::Volume(-VOLUME_STEP))
    } else if same(command, "mute") && !repeat {
        Some(Op::ToggleMute)
    } else if same(command, "next") && !repeat {
        Some(Op::Skip(true))
    } else if same(command, "previous") && !repeat {
        Some(Op::Skip(false))
    } else {
        None
    }
}

/// The speaker that a device is, if it is one.
pub open spec fn speaker_of(device: Device) -> Option<Target> {
    match device.integration {
        Some(Integration::Sonos { host }) => match ipv4_of(host@) {
            Some(host) => Some(Target { id: device.id, name: device.name, host: host as u32 }),
            None => None,
        },
        _ => None,
    }
}

/// The speaker on a row of a room's list, if that is what it is. Rows follow the
/// room's own order after the pinned activities.
pub open spec fn speaker_at(config: Config, room: Seq<char>, index: int) -> Option<Target> {
    match row_device(config, room, index) {
        Some(device) => speaker_of(device),
        None => None,
    }
}

/// The speaker on a row of a room's list, if that is what it is.
pub fn target(config: &Config, room: &str, index: usize) -> (r: Option<Target>)
    ensures
        r == speaker_at(*config, room@, index as int),
{
    match device_at(config, room, index) {
        Some(device) => match &device.integration {
            Some(integration) => match integration {
                Integration::Sonos { host } => match ipv4(host.as_str()) {
                    Some(host) => Some(
                        Target { id: device.id.clone(), name: device.name.clone(), host },
                    ),
                    None => None,
                },
                _ => None,
            },
            None => None,
        },
        None => None,
    }
}

/// Whether a request adds to a volume request: another press for the same
/// speaker, in the same room.
pub open spec fn joins(first: Request, next: Request) -> bool {
    next.op is Volume && next.target.alike(first.target) && next.generation == first.generation
}

/// The step of a volume request.
pub open spec fn step_of(request: Request) -> int {
    match request.op {
        Op::Volume(step) => step as int,
        _ => 0,
    }
}

/// How many of the requests, from the i-th on, join one before anything else
/// comes.
pub open spec fn joining(first: Request, queue: Seq<Request>, i: int) -> nat
    decreases queue.len() - i,
{
    if i < 0 || i >= queue.len() || !joins(first, queue[i]) {
        0
    } else {
        1 + joining(first, queue, i + 1)
    }
}

/// What a volume request comes to with those that join it, each held within
/// bounds.
pub open spec fn summed(first: Request, queue: Seq<Request>, n: int) -> int
    decreases n,
{
    if n <= 0 {
        step_of(first)
    } else {
        clamped(
            summed(first, queue, n - 1) + step_of(queue[n - 1]),
            -VOLUME_BURST as int,
            VOLUME_BURST as int,
        )
    }
}

/// Take the next request. The presses that piled up behind a volume request for
/// the same speaker are summed into it; anything else keeps its turn.
pub fn next_job(queue: &mut VecDeque<Request>) -> (r: Option<Request>)
    ensures
        old(queue)@.len() == 0 ==> r is None && final(queue)@ == old(queue)@,
        old(queue)@.len() > 0 ==> {
            let first = old(queue)@[0];
            let rest = old(queue)@.subrange(1, old(queue)@.len() as int);
            let n = if first.op is Volume {
                joining(first, rest, 0)
            } else {
                0
            };
            &&& final(queue)@ == rest.subrange(n as int, rest.len() as int)
            &&& r == Some(
                if first.op is Volume {
                    Request { op: Op::Volume(summed(first, rest, n as int) as i8), ..first }
                } else {
                    first
                },
            )
        },
{
    let first = match queue.pop_front() {
        Some(first) => first,
        None => return None,
    };
    let ghost rest = queue@;
    assert(rest == old(queue)@.subrange(1, old(queue)@.len() as int));
    assert(first == old(queue)@[0]);
    assert(rest.subrange(0, rest.len() as int) =~= rest);
    let mut delta: i8 = match first.op {
        Op::Volume(step) => step,
        _ => return Some(first),
    };
    let ghost mut n: int = 0;
    while queue.len() > 0
        invariant
            first.op is Volume,
            0 <= n <= rest.len(),
            queue@ == rest.subrange(n, rest.len() as int),
            delta == summed(first, rest, n),
            joining(first, rest, 0) == n + joining(first, rest, n),
        ensures
            queue@ == rest.subrange(n, rest.len() as int),
            delta == summed(first, rest, n),
            0 <= n <= rest.len(),
            joining(first, rest, 0) == n,
        decreases queue@.len(),
    {
        assert(queue@[0] == rest[n]);
        let joined: Option<i8> = match &queue[0].op {
            Op::Volume(step) => if queue[0].target.same_as(&first.target) && queue[0].generation
                == first.generation {
                Some(*step)
            } else {
                None
            },
            _ => None,
        };
        match joined {
            Some(step) => {
                let _ = queue.pop_front();
                delta =
                clamp(
                    delta as i64 + step as i64,
                    -(VOLUME_BURST as i64),
                    VOLUME_BURST as i64,
                ) as i8;
                proof {
                    n = n + 1;
                    assert(queue@ =~= rest.subrange(n, rest.len() as int));
                }
            },
            None => {
                break ;
            },
        }
    }
    Some(Request { op: Op::Volume(delta), ..first })
}

/// What the worker tells the room.
#[derive(Debug)]
pub enum Report {
    Card(Feedback),
    Sources { target: Target, sources: Vec<Source> },
    Failed(Feedback),
}

/// How far the worker is with a request.
#[derive(Clone, Copy, PartialEq, Eq, Structural, Debug)]
pub enum At {
    Connecting,
    Nudging,
    ReadingLevel,
    ReadingMute,
    /// Turning mute the other way; whether it was on.
    Muting(bool),
    Acting,
    Listing,
}

/// What the worker is told.
#[derive(Debug)]
pub enum Answer {
    Connected(Result<(), SonosError>),
    Taken(Result<(), SonosError>),
    Level(Result<u8, SonosError>),
    Muted(Result<bool, SonosError>),
    Sources(Result<Vec<Source>, SonosError>),
}

/// What is asked of a speaker next.
#[derive(Debug)]
pub enum Call {
    /// Nothing: take the next request.
    Wait,
    Connect(u32),
    Nudge(i8),
    Level,
    IsMuted,
    SetMuted(bool),
    Skip(bool),
    Sources,
    Select(String),
}

/// What is told to the room, and what is asked of the speaker.
#[derive(Debug)]
pub struct Step {
    pub reply: Option<(u64, Report)>,
    pub call: Call,
}

/// The worker between two calls: the speaker that it keeps a connection to, and
/// the request that it is at.
#[derive(Debug)]
pub struct Worker {
    pub cached: Option<u32>,
    pub job: Option<Request>,
    pub at: At,
}

impl Worker {
    /// A request has ended with nothing to show.
    pub open spec fn dropping(self) -> (Worker, Step) {
        (Worker { job: None, ..self }, Step { reply: None, call: Call::Wait })
    }

    /// A request has ended.
    pub open spec fn reporting(self, generation: u64, report: Report) -> (Worker, Step) {
        (
            Worker { job: None, ..self },
            Step { reply: Some((generation, report)), call: Call::Wait },
        )
    }

    /// A call has failed. A kept connection that failed is dropped, so that the
    /// next press connects anew; one that was called off shows nothing.
    pub open spec fn failing(self, job: Request, error: SonosError) -> (Worker, Step) {
        match error {
            SonosError::Cancelled { .. } => self.dropping(),
            error => Worker {
                cached: if error is Transport {
                    None
                } else {
                    self.cached
                },
                ..self
            }.reporting(
                job.generation,
                Report::Failed(Feedback::Failed { speaker: job.target.name, error }),
            ),
        }
    }

    /// The next call of a request.
    pub open spec fn going(self, job: Request, at: At, call: Call) -> (Worker, Step) {
        (Worker { job: Some(job), at, ..self }, Step { reply: None, call })
    }

    /// The first call of a request to a connected speaker. What changes or shows
    /// something is not begun once the room has been left.
    pub open spec fn running(self, job: Request, current: bool) -> (Worker, Step) {
        match job.op {
            Op::Volume(delta) => if current {
                self.going(job, At::Nudging, Call::Nudge(delta))
            } else {
                self.dropping()
            },
            Op::ToggleMute => self.going(job, At::ReadingMute, Call::IsMuted),
            Op::Skip(next) => self.going(job, At::Acting, Call::Skip(next)),
            Op::Sources => if current {
                self.going(job, At::Listing, Call::Sources)
            } else {
                self.dropping()
            },
            Op::Select { id, .. } => self.going(job, At::Acting, Call::Select(id)),
        }
    }

    /// What the worker does about a request.
    pub open spec fn begun(self, job: Request, current: bool) -> (Worker, Step) {
        if !current {
            self.dropping()
        } else if self.cached == Some(job.target.host) {
            self.running(job, current)
        } else {
            Worker { cached: None, ..self }.going(
                job,
                At::Connecting,
                Call::Connect(job.target.host),
            )
        }
    }

    /// What the worker does about an answer. One that it did not wait for
    /// changes nothing.
    pub open spec fn answered(self, answer: Answer, current: bool) -> (Worker, Step) {
        let job = self.job->0;
        let speaker = job.target.name;
        if self.job is None {
            (self, Step { reply: None, call: Call::Wait })
        } else {
            match (self.at, answer) {
                (At::Connecting, Answer::Connected(Ok(_))) => Worker {
                    cached: Some(job.target.host),
                    ..self
                }.running(job, current),
                (At::Connecting, Answer::Connected(Err(error))) => self.reporting(
                    job.generation,
                    Report::Failed(Feedback::Failed { speaker, error }),
                ),
                (At::Nudging, Answer::Taken(Ok(_))) => self.going(
                    job,
                    At::ReadingLevel,
                    Call::Level,
                ),
                (At::Nudging, Answer::Taken(Err(error))) => self.failing(job, error),
                (At::ReadingLevel, Answer::Level(Ok(level))) => self.reporting(
                    job.generation,
                    Report::Card(Feedback::Volume { speaker, level }),
                ),
                (At::ReadingLevel, Answer::Level(Err(error))) => self.failing(job, error),
                (At::ReadingMute, Answer::Muted(Ok(was))) => if current {
                    self.going(job, At::Muting(was), Call::SetMuted(!was))
                } else {
                    self.dropping()
                },
                (At::ReadingMute, Answer::Muted(Err(error))) => self.failing(job, error),
                (At::Muting(was), Answer::Taken(Ok(_))) => self.reporting(
                    job.generation,
                    Report::Card(
                        if was {
                            Feedback::Unmuted { speaker }
                        } else {
                            Feedback::Muted { speaker }
                        },
                    ),
                ),
                (At::Muting(_), Answer::Taken(Err(error))) => self.failing(job, error),
                (At::Acting, Answer::Taken(Ok(_))) => match job.op {
                    Op::Skip(next) => self.reporting(
                        job.generation,
                        Report::Card(Feedback::Skipped { speaker, next }),
                    ),
                    Op::Select { name, .. } => self.reporting(
                        job.generation,
                        Report::Card(Feedback::Playing { source: name, speaker }),
                    ),
                    _ => (self, Step { reply: None, call: Call::Wait }),
                },
                (At::Acting, Answer::Taken(Err(error))) => self.failing(job, error),
                (At::Listing, Answer::Sources(Ok(sources))) => self.reporting(
                    job.generation,
                    Report::Sources { target: job.target, sources },
                ),
                (At::Listing, Answer::Sources(Err(error))) => self.failing(job, error),
                _ => (self, Step { reply: None, call: Call::Wait }),
            }
        }
    }

    /// A worker that keeps no connection.
    pub fn new() -> (r: Worker)
        ensures
            r == (Worker { cached: None, job: None, at: At::Connecting }),
    {
        Worker { cached: None, job: None, at: At::Connecting }
    }

    fn drop_job(&mut self) -> (r: Step)
        ensures
            (*final(self), r) == old(self).dropping(),
    {
        self.job = None;
        Step { reply: None, call: Call::Wait }
    }

    fn report(&mut self, generation: u64, report: Report) -> (r: Step)
        ensures
            (*final(self), r) == old(self).reporting(generation, report),
    {
        self.job = None;
        Step { reply: Some((generation, report)), call: Call::Wait }
    }

    fn fail(&mut self, job: Request, error: SonosError) -> (r: Step)
        ensures
            (*final(self), r) == old(self).failing(job, error),
    {
        match error {
            SonosError::Cancelled { .. } => self.drop_job(),
            error => {
                match &error {
                    SonosError::Transport => {
                        self.cached = None;
                    },
                    _ => {},
                }
                self.report(
                    job.generation,
                    Report::Failed(Feedback::Failed { speaker: job.target.name, error }),
                )
            },
        }
    }

    fn go(&mut self, job: Request, at: At, call: Call) -> (r: Step)
        ensures
            (*final(self), r) == old(self).going(job, at, call),
    {
        self.job = Some(job);
        self.at = at;
        Step { reply: None, call }
    }

    fn run(&mut self, job: Request, current: bool) -> (r: Step)
        ensures
            (*final(self), r) == old(self).running(job, current),
    {
        match &job.op {
            Op::Volume(delta) => {
                let delta: i8 = *delta;
                if current {
                    self.go(job, At::Nudging, Call::Nudge(delta))
                } else {
                    self.drop_job()
                }
            },
            Op::ToggleMute => self.go(job, At::ReadingMute, Call::IsMuted),
            Op::Skip(next) => {
                let next = *next;
                self.go(job, At::Acting, Call::Skip(next))
            },
            Op::Sources => {
                if current {
                    self.go(job, At::Listing, Call::Sources)
                } else {
                    self.drop_job()
                }
            },
            Op::Select { id, .. } => {
                let id = id.clone();
                self.go(job, At::Acting, Call::Select(id))
            },
        }
    }

    /// Take a request, while the room that made it is still open or not.
    pub fn begin(&mut self, job: Request, current: bool) -> (r: Step)
        ensures
            (*final(self), r) == old(self).begun(job, current),
    {
        if !current {
            return self.drop_job();
        }
        let host: u32 = job.target.host;
        let kept = match self.cached {
            Some(cached) => cached == host,
            None => false,
        };
        if kept {
            self.run(job, current)
        } else {
            self.cached = None;
            self.go(job, At::Connecting, Call::Connect(host))
        }
    }

    /// Take what came of a call.
    pub fn answer(&mut self, answer: Answer, current: bool) -> (r: Step)
        ensures
            (*final(self), r) == old(self).answered(answer, current),
    {
        let job = match self.job.take() {
            Some(job) => job,
            None => return Step { reply: None, call: Call::Wait },
        };
        match (self.at, answer) {
            (At::Connecting, Answer::Connected(result)) => match result {
                Ok(_) => {
                    self.cached = Some(job.target.host);
                    self.run(job, current)
                },
                Err(error) => self.report(
                    job.generation,
                    Report::Failed(Feedback::Failed { speaker: job.target.name, error }),
                ),
            },
            (At::Nudging, Answer::Taken(result)) => match result {
                Ok(_) => self.go(job, At::ReadingLevel, Call::Level),
                Err(error) => self.fail(job, error),
            },
            (At::ReadingLevel, Answer::Level(result)) => match result {
                Ok(level) => self.report(
                    job.generation,
                    Report::Card(Feedback::Volume { speaker: job.target.name, level }),
                ),
                Err(error) => self.fail(job, error),
            },
            (At::ReadingMute, Answer::Muted(result)) => match result {
                Ok(was) => if current {
                    self.go(job, At::Muting(was), Call::SetMuted(!was))
                } else {
                    self.drop_job()
                },
                Err(error) => self.fail(job, error),
            },
            (At::Muting(was), Answer::Taken(result)) => match result {
                Ok(_) => {
                    let card = if was {
                        Feedback::Unmuted { speaker: job.target.name }
                    } else {
                        Feedback::Muted { speaker: job.target.name }
                    };
                    self.report(job.generation, Report::Card(card))
                },
                Err(error) => self.fail(job, error),
            },
            (At::Acting, Answer::Taken(result)) => match result {
                Ok(_) => match job.op {
                    Op::Skip(next) => self.report(
                        job.generation,
                        Report::Card(Feedback::Skipped { speaker: job.target.name, next }),
                    ),
                    Op::Select { id: _, name } => self.report(
                        job.generation,
                        Report::Card(
                            Feedback::Playing { source: name, speaker: job.target.name },
                        ),
                    ),
                    op => {
                        self.job =
                        Some(Request { generation: job.generation, target: job.target, op });
                        Step { reply: None, call: Call::Wait }
                    },
                },
                Err(error) => self.fail(job, error),
            },
            (At::Listing, Answer::Sources(result)) => match result {
                Ok(sources) => self.report(
                    job.generation,
                    Report::Sources { target: job.target, sources },
                ),
                Err(error) => self.fail(job, error),
            },
            _ => {
                self.job = Some(job);
                Step { reply: None, call: Call::Wait }
            },
        }
    }
}

/// A key on the room list, as it waits.
#[derive(Debug)]
pub enum Input {
    /// A physical key on a highlighted row.
    Key { index: usize, command: String, repeat: bool },
    Menu,
    Choose(usize),
}

/// The sources that the open picker lists, in row order, and their speaker.
#[derive(Debug)]
pub struct Offer {
    pub target: Target,
    pub sources: Vec<Source>,
}

/// What is on the screen besides the room list.
#[derive(Clone, Copy, PartialEq, Eq, Structural, Debug)]
pub struct Above {
    /// Whether a list to choose from is up, and whether it is the source picker.
    pub chooser: bool,
    pub sources: bool,
    /// Whether another page covers the room.
    pub covered: bool,
}

/// The controller of the room's speakers.
#[derive(Debug)]
pub struct Controller {
    pub generation: u64,
    pub room: String,
    /// The card on the screen, and when it goes away by itself.
    pub card: Option<Feedback>,
    pub card_until: Option<u64>,
    pub offered: Option<Offer>,
    /// The picker was asked for and has not been seen open yet.
    pub chooser_pending: bool,
    pub input: VecDeque<Input>,
}

impl Controller {
    /// Nothing waits and no card is up.
    pub fn new() -> (r: Controller)
        ensures
            r.generation == 0,
            r.room@.len() == 0,
            r.card is None && r.card_until is None,
            r.offered is None,
            !r.chooser_pending,
            r.input@.len() == 0,
    {
        Controller {
            generation: 0,
            room: String::new(),
            card: None,
            card_until: None,
            offered: None,
            chooser_pending: false,
            input: VecDeque::new(),
        }
    }

    /// A key has been pressed.
    pub fn press(&mut self, input: Input)
        ensures
            final(self).input@ == old(self).input@.push(input),
            *final(self) == (Controller { input: final(self).input, ..*old(self) }),
    {
        self.input.push_back(input);
    }

    fn show(&mut self, card: Feedback, ms: u64, now: u64)
        ensures
            *final(self) == (Controller {
                card: Some(card),
                card_until: Some(later(now, ms)),
                ..*old(self)
            }),
    {
        self.card = Some(card);
        self.card_until = Some(later_than(now, ms));
    }

    fn take_down(&mut self)
        ensures
            *final(self) == (Controller { card: None, card_until: None, ..*old(self) }),
    {
        self.card = None;
        self.card_until = None;
    }

    /// Whether the room list has gone, or shows another room.
    pub open spec fn left(self, shown: bool, room: Seq<char>) -> bool {
        !shown || room != self.room@
    }

    /// Whether leaving the room calls anything off.
    pub open spec fn in_use(self) -> bool {
        self.generation != 0 || self.input@.len() > 0 || self.offered is Some
    }

    /// Whether following the screen leaves the controller so. What belongs to a
    /// room that has been left is called off; a card goes when its time is over,
    /// or when the picker that it announced is up; and a picker that closed offers
    /// nothing any more.
    pub open spec fn followed(
        self,
        shown: bool,
        room: Seq<char>,
        above: Above,
        now: u64,
        after: Controller,
    ) -> bool {
        let left = self.left(shown, room);
        let off = left && self.in_use();
        let offered = if off {
            None
        } else {
            self.offered
        };
        let pending = self.chooser_pending && !off;
        let up = self.card_until is Some && !left;
        let over = up && now >= self.card_until->0;
        let seen = shown && pending && above.chooser;
        &&& after.room@ == room
        &&& after.generation == if off {
            wrapped(self.generation)
        } else {
            self.generation
        }
        &&& after.input@ == if off {
            Seq::empty()
        } else {
            self.input@
        }
        &&& after.card == if left && self.card_until is Some || shown && (over || seen) {
            None
        } else {
            self.card
        }
        &&& after.card_until == if left || shown && (over || seen) {
            None
        } else {
            self.card_until
        }
        &&& after.chooser_pending == (pending && !seen)
        &&& after.offered == if shown && !pending && !(above.chooser && above.sources) {
            None
        } else {
            offered
        }
    }

    /// Follow the screen. What belongs to a room that has been left is called
    /// off; a card goes when its time is over, or when the picker that it
    /// announced is up; and a picker that closed offers nothing any more. Says
    /// whether the room list is up.
    pub fn follow(&mut self, shown: bool, room: &str, above: Above, now: u64) -> (r: bool)
        ensures
            r == shown,
            old(self).followed(shown, room@, above, now, *final(self)),
    {
        let left = !shown || !same(room, self.room.as_str());
        if left {
            self.room = room.to_owned();
            if self.generation != 0 || self.input.len() > 0 || self.offered.is_some() {
                self.generation = next_generation(self.generation);
                self.input = VecDeque::new();
                self.offered = None;
                self.chooser_pending = false;
            }
            if self.card_until.is_some() {
                self.take_down();
            }
            if !shown {
                return false;
            }
        }
        match self.card_until {
            Some(until) => {
                if now >= until {
                    self.take_down();
                }
            },
            None => {},
        }
        if self.chooser_pending && above.chooser {
            self.chooser_pending = false;
            self.take_down();
        } else if !self.chooser_pending && !(above.chooser && above.sources) {
            self.offered = None;
        }
        true
    }

    /// The controller with a card up.
    pub open spec fn showing(self, card: Feedback, ms: u64, now: u64) -> Controller {
        Controller { card: Some(card), card_until: Some(later(now, ms)), ..self }
    }

    /// A request of this room.
    pub open spec fn asking(self, target: Target, op: Op) -> Option<Request> {
        Some(Request { generation: self.generation, target, op })
    }

    /// The speaker on a row of this room.
    pub open spec fn speaker(self, config: Option<&Config>, index: int) -> Option<Target> {
        match config {
            Some(config) => speaker_at(*config, self.room@, index),
            None => None,
        }
    }

    /// What a key does, and what goes to the worker. The row that is highlighted
    /// counts for the menu key alone; a key names its own row.
    pub open spec fn pressed(
        self,
        input: Input,
        config: Option<&Config>,
        highlighted: int,
        above: Above,
        now: u64,
    ) -> (Controller, Option<Request>) {
        match input {
            Input::Key { index, command, repeat } => (
                self,
                match (self.speaker(config, index as int), work_of(command@, repeat)) {
                    (Some(target), Some(op)) => self.asking(target, op),
                    _ => None,
                },
            ),
            Input::Menu => if highlighted < 0 || above.chooser {
                (self, None)
            } else {
                match self.speaker(config, highlighted) {
                    Some(target) => (
                        self.showing(
                            Feedback::Finding { speaker: target.name },
                            SEARCH_CARD_MS,
                            now,
                        ),
                        self.asking(target, Op::Sources),
                    ),
                    None => (self, None),
                }
            },
            Input::Choose(index) => match self.offered {
                Some(offer) => {
                    let taken = Controller { offered: None, ..self };
                    if index < offer.sources@.len() {
                        let source = offer.sources@[index as int];
                        (
                            taken.showing(
                                Feedback::Starting {
                                    source: source.name,
                                    speaker: offer.target.name,
                                },
                                SEARCH_CARD_MS,
                                now,
                            ),
                            self.asking(
                                offer.target,
                                Op::Select { id: source.id, name: source.name },
                            ),
                        )
                    } else {
                        (taken, None)
                    }
                },
                None => (self, None),
            },
        }
    }

    fn speaker_here(&self, config: Option<&Config>, index: usize) -> (r: Option<Target>)
        ensures
            r == self.speaker(config, index as int),
    {
        match config {
            Some(config) => target(config, self.room.as_str(), index),
            None => None,
        }
    }

    /// What a key does, and what goes to the worker.
    pub fn handle(
        &mut self,
        input: Input,
        config: Option<&Config>,
        highlighted: i32,
        above: Above,
        now: u64,
    ) -> (r: Option<Request>)
        ensures
            (*final(self), r) == old(self).pressed(input, config, highlighted as int, above, now),
    {
        match input {
            Input::Key { index, command, repeat } => match self.speaker_here(config, index) {
                Some(target) => match operation(command.as_str(), repeat) {
                    Some(op) => Some(Request { generation: self.generation, target, op }),
                    None => None,
                },
                None => None,
            },
            Input::Menu => {
                if highlighted < 0 || above.chooser {
                    return None;
                }
                match self.speaker_here(config, highlighted as usize) {
                    Some(target) => {
                        self.show(
                            Feedback::Finding { speaker: target.name.clone() },
                            SEARCH_CARD_MS,
                            now,
                        );
                        Some(Request { generation: self.generation, target, op: Op::Sources })
                    },
                    None => None,
                }
            },
            Input::Choose(index) => match self.offered.take() {
                Some(offer) => {
                    if index >= offer.sources.len() {
                        return None;
                    }
                    let source = &offer.sources[index];
                    self.show(
                        Feedback::Starting {
                            source: source.name.clone(),
                            speaker: offer.target.name.clone(),
                        },
                        SEARCH_CARD_MS,
                        now,
                    );
                    let op = Op::Select { id: source.id.clone(), name: source.name.clone() };
                    Some(Request { generation: self.generation, target: offer.target, op })
                },
                None => None,
            },
        }
    }

    /// Take the key that waits longest, if any does.
    pub fn next_input(&mut self) -> (r: Option<Input>)
        ensures
            match r {
                Some(input) => {
                    &&& old(self).input@.len() > 0
                    &&& input == old(self).input@[0]
                    &&& final(self).input@ == old(self).input@.subrange(
                        1,
                        old(self).input@.len() as int,
                    )
                },
                None => old(self).input@.len() == 0 && final(self).input@ == old(self).input@,
            },
            *final(self) == (Controller { input: final(self).input, ..*old(self) }),
    {
        self.input.pop_front()
    }

    /// What an answer to this room does, and whether the source picker is to be
    /// slid in. A list that arrives over another page is dropped, not shown
    /// later.
    pub open spec fn received(self, report: Report, above: Above, now: u64) -> (Controller, bool) {
        match report {
            Report::Card(card) => (
                self.showing(
                    card,
                    if card.spec_volume() is Some {
                        VOLUME_CARD_MS
                    } else {
                        CARD_MS
                    },
                    now,
                ),
                false,
            ),
            Report::Failed(card) => (self.showing(card, ERROR_CARD_MS, now), false),
            Report::Sources { target, sources } => if sources@.len() == 0 {
                (
                    self.showing(
                        Feedback::NoSources { speaker: target.name },
                        ERROR_CARD_MS,
                        now,
                    ),
                    false,
                )
            } else if above.chooser || above.covered {
                (self, false)
            } else {
                (
                    Controller {
                        offered: Some(Offer { target, sources }),
                        chooser_pending: true,
                        ..self
                    },
                    true,
                )
            },
        }
    }

    /// Take an answer from the worker. One for a room that has been left changes
    /// nothing. Says whether the source picker is to be slid in, with the
    /// sources on offer as its rows.
    pub fn receive(&mut self, generation: u64, report: Report, above: Above, now: u64) -> (r: bool)
        ensures
            (*final(self), r) == if generation == old(self).generation {
                old(self).received(report, above, now)
            } else {
                (*old(self), false)
            },
    {
        if generation != self.generation {
            return false;
        }
        match report {
            Report::Card(card) => {
                let ms: u64 = match &card {
                    Feedback::Volume { .. } => VOLUME_CARD_MS,
                    _ => CARD_MS,
                };
                self.show(card, ms, now);
                false
            },
            Report::Failed(card) => {
                self.show(card, ERROR_CARD_MS, now);
                false
            },
            Report::Sources { target, sources } => {
                if sources.len() == 0 {
                    self.show(Feedback::NoSources { speaker: target.name }, ERROR_CARD_MS, now);
                    return false;
                }
                if above.chooser || above.covered {
                    return false;
                }
                self.offered = Some(Offer { target, sources });
                self.chooser_pending = true;
                true
            },
        }
    }

    /// What keys do, in their order, and what goes to the worker for them.
    pub open spec fn pressed_all(
        self,
        inputs: Seq<Input>,
        config: Option<&Config>,
        highlighted: int,
        above: Above,
        now: u64,
    ) -> (Controller, Seq<Request>)
        decreases inputs.len(),
    {
        if inputs.len() == 0 {
            (self, Seq::empty())
        } else {
            let (next, request) = self.pressed(inputs[0], config, highlighted, above, now);
            let (last, later) = next.pressed_all(
                inputs.subrange(1, inputs.len() as int),
                config,
                highlighted,
                above,
                now,
            );
            (last, asked(request) + later)
        }
    }

    /// What an answer does, and whether the source picker is to be slid in: one
    /// for a room that has been left does nothing.
    pub open spec fn heard(self, generation: u64, report: Report, above: Above, now: u64) -> (
        Controller,
        bool,
    ) {
        if generation == self.generation {
            self.received(report, above, now)
        } else {
            (self, false)
        }
    }

    /// What answers do, in their order, and whether the source picker is to be
    /// slid in for one of them.
    pub open spec fn heard_all(self, reports: Seq<(u64, Report)>, above: Above, now: u64) -> (
        Controller,
        bool,
    )
        decreases reports.len(),
    {
        if reports.len() == 0 {
            (self, false)
        } else {
            let (next, slides) = self.heard(reports[0].0, reports[0].1, above, now);
            let (last, later) = next.heard_all(
                reports.subrange(1, reports.len() as int),
                above,
                now,
            );
            (last, slides || later)
        }
    }

    /// What a turn of the main loop does once the screen has been followed: all
    /// keys, then all answers. The keys that waited are gone.
    pub open spec fn turned(
        self,
        turn: Turn,
        config: Option<&Config>,
        reports: Seq<(u64, Report)>,
        after: Controller,
        out: Polled,
    ) -> bool {
        let (keyed, requests) = self.pressed_all(
            self.input@,
            config,
            turn.highlighted as int,
            turn.above,
            turn.now,
        );
        let (last, slides) = keyed.heard_all(reports, turn.above, turn.now);
        &&& after == (Controller { input: after.input, ..last })
        &&& after.input@.len() == 0
        &&& out.requests@ == requests
        &&& out.slides == slides
    }

    /// Let every key that waits do what it does. What goes to the worker is
    /// returned in the keys' order.
    fn handle_all(&mut self, turn: Turn, config: Option<&Config>) -> (r: Vec<Request>)
        ensures
            ({
                let (last, requests) = old(self).pressed_all(
                    old(self).input@,
                    config,
                    turn.highlighted as int,
                    turn.above,
                    turn.now,
                );
                &&& *final(self) == (Controller { input: final(self).input, ..last })
                &&& r@ == requests
            }),
            final(self).input@.len() == 0,
    {
        let mut requests: Vec<Request> = Vec::new();
        let ghost queue = self.input;
        let ghost goal = self.pressed_all(
            self.input@,
            config,
            turn.highlighted as int,
            turn.above,
            turn.now,
        );
        proof {
            keys_leave_the_queue(*self, queue, self.input@, config, turn);
            assert(*self == (Controller { input: queue, ..*self }));
            assert(requests@ + goal.1 =~= goal.1);
        }
        while self.input.len() > 0
            invariant
                left_to_do(*self, queue, requests@, config, turn) == goal,
            decreases self.input@.len(),
        {
            let ghost before = *self;
            let ghost done = requests@;
            match self.next_input() {
                Some(input) => {
                    let ghost popped = *self;
                    let request = self.handle(
                        input,
                        config,
                        turn.highlighted,
                        turn.above,
                        turn.now,
                    );
                    proof {
                        a_key_comes_first(before, popped, queue, done, config, turn);
                        assert(done.push(request->0) =~= done + asked(request) || request is None);
                        assert(done =~= done + Seq::<Request>::empty());
                    }
                    match request {
                        Some(request) => {
                            requests.push(request);
                        },
                        None => {},
                    }
                },
                None => {},
            }
        }
        assert(requests@ + Seq::<Request>::empty() =~= requests@);
        requests
    }

    /// A turn of the main loop, with the answers that have arrived.
    pub fn poll(
        &mut self,
        turn: Turn,
        room: &str,
        config: Option<&Config>,
        reports: VecDeque<(u64, Report)>,
    ) -> (r: Polled)
        ensures
            exists|followed: Controller|
                {
                    &&& #[trigger] old(self).followed(
                        turn.shown,
                        room@,
                        turn.above,
                        turn.now,
                        followed,
                    )
                    &&& if turn.shown {
                        followed.turned(turn, config, reports@, *final(self), r)
                    } else {
                        *final(self) == followed && r.requests@.len() == 0 && !r.slides
                    }
                },
    {
        if !self.follow(turn.shown, room, turn.above, turn.now) {
            return Polled { requests: Vec::new(), slides: false };
        }
        let ghost followed = *self;
        let requests = self.handle_all(turn, config);
        let mut reports = reports;
        let ghost all = reports@;
        let ghost keyed = *self;
        let mut slides = false;
        while reports.len() > 0
            invariant
                ({
                    let (last, later) = self.heard_all(reports@, turn.above, turn.now);
                    (last, slides || later) == keyed.heard_all(all, turn.above, turn.now)
                }),
            decreases reports@.len(),
        {
            match reports.pop_front() {
                Some((generation, report)) => {
                    let opens = self.receive(generation, report, turn.above, turn.now);
                    slides = slides || opens;
                },
                None => {},
            }
        }
        proof {
            let last = followed.pressed_all(
                followed.input@,
                config,
                turn.highlighted as int,
                turn.above,
                turn.now,
            ).0;
            answers_leave_the_queue(keyed, last.input, all, turn.above, turn.now);
            assert(last == (Controller { input: last.input, ..keyed }));
        }
        Polled { requests, slides }
    }
}

/// The request of a key, if there is one.
pub open spec fn asked(request: Option<Request>) -> Seq<Request> {
    match request {
        Some(request) => seq![request],
        None => Seq::empty(),
    }
}

/// What there is besides the room's speakers in a turn of the main loop.
#[derive(Clone, Copy, PartialEq, Eq, Structural, Debug)]
pub struct Turn {
    /// Whether the room list is up.
    pub shown: bool,
    /// The row that is highlighted, if one is; otherwise negative.
    pub highlighted: i32,
    pub above: Above,
    pub now: u64,
}

/// What a turn of the main loop comes to.
#[derive(Debug)]
pub struct Polled {
    /// What goes to the worker, in this order.
    pub requests: Vec<Request>,
    /// Whether the source picker is to be slid in.
    pub slides: bool,
}

/// What the keys that wait come to, with a queue and after the requests of those
/// that went before them.
spec fn left_to_do(
    c: Controller,
    queue: VecDeque<Input>,
    done: Seq<Request>,
    config: Option<&Config>,
    turn: Turn,
) -> (Controller, Seq<Request>) {
    let (last, later) = c.pressed_all(
        c.input@,
        config,
        turn.highlighted as int,
        turn.above,
        turn.now,
    );
    (Controller { input: queue, ..last }, done + later)
}

/// The key that waits longest comes first.
proof fn a_key_comes_first(
    before: Controller,
    popped: Controller,
    queue: VecDeque<Input>,
    done: Seq<Request>,
    config: Option<&Config>,
    turn: Turn,
)
    requires
        before.input@.len() > 0,
        popped == (Controller { input: popped.input, ..before }),
        popped.input@ == before.input@.subrange(1, before.input@.len() as int),
    ensures
        ({
            let (next, request) = popped.pressed(
                before.input@[0],
                config,
                turn.highlighted as int,
                turn.above,
                turn.now,
            );
            left_to_do(next, queue, done + asked(request), config, turn) == left_to_do(
                before,
                queue,
                done,
                config,
                turn,
            )
        }),
{
    let (next, request) = popped.pressed(
        before.input@[0],
        config,
        turn.highlighted as int,
        turn.above,
        turn.now,
    );
    keys_leave_the_queue(next, before.input, popped.input@, config, turn);
    let later = next.pressed_all(
        popped.input@,
        config,
        turn.highlighted as int,
        turn.above,
        turn.now,
    ).1;
    assert(done + (asked(request) + later) =~= (done + asked(request)) + later);
}

/// What waits in the queue plays no part in what keys do.
proof fn keys_leave_the_queue(
    c: Controller,
    queue: VecDeque<Input>,
    inputs: Seq<Input>,
    config: Option<&Config>,
    turn: Turn,
)
    ensures
        ({
            let highlighted = turn.highlighted as int;
            let (last, requests) = c.pressed_all(
                inputs,
                config,
                highlighted,
                turn.above,
                turn.now,
            );
            (Controller { input: queue, ..c }).pressed_all(
                inputs,
                config,
                highlighted,
                turn.above,
                turn.now,
            ) == (Controller { input: queue, ..last }, requests)
        }),
    decreases inputs.len(),
{
    if inputs.len() > 0 {
        let next = c.pressed(
            inputs[0],
            config,
            turn.highlighted as int,
            turn.above,
            turn.now,
        ).0;
        keys_leave_the_queue(next, queue, inputs.subrange(1, inputs.len() as int), config, turn);
    }
}

/// What waits in the queue plays no part in what answers do.
proof fn answers_leave_the_queue(
    c: Controller,
    queue: VecDeque<Input>,
    reports: Seq<(u64, Report)>,
    above: Above,
    now: u64,
)
    ensures
        ({
            let (last, slides) = c.heard_all(reports, above, now);
            (Controller { input: queue, ..c }).heard_all(reports, above, now) == (
                Controller { input: queue, ..last },
                slides,
            )
        }),
        c.heard_all(reports, above, now).0.input == c.input,
    decreases reports.len(),
{
    if reports.len() > 0 {
        let next = c.heard(reports[0].0, reports[0].1, above, now).0;
        let rest = reports.subrange(1, reports.len() as int);
        answers_leave_the_queue(next, queue, rest, above, now);
    }
}

/// A key acts on the speaker whose row it was pressed on, seeing past the pinned
/// activities, and on nothing where that row is none.
pub proof fn a_key_acts_on_the_speaker_of_its_row(
    c: Controller,
    config: Config,
    index: usize,
    command: String,
    repeat: bool,
    highlighted: int,
    above: Above,
    now: u64,
)
    ensures
        ({
            let key = Input::Key { index, command, repeat };
            let sent = c.pressed(key, Some(&config), highlighted, above, now).1;
            let speaker = match row_device(config, c.room@, index as int) {
                Some(device) => speaker_of(device),
                None => None,
            };
            match sent {
                Some(request) => speaker == Some(request.target),
                None => speaker is None || work_of(command@, repeat) is None,
            }
        }),
{
}

/// A held volume key becomes one write within bounds, however many presses of
/// it pile up.
pub proof fn a_held_volume_key_is_one_bounded_write(first: Request, queue: Seq<Request>, n: int)
    requires
        first.op matches Op::Volume(step) && -VOLUME_BURST <= step <= VOLUME_BURST,
    ensures
        -VOLUME_BURST <= summed(first, queue, n) <= VOLUME_BURST,
{
}

/// What does not join a volume request keeps its turn: nothing is taken from
/// the queue past it.
pub proof fn other_work_keeps_its_turn(first: Request, queue: Seq<Request>, i: int, k: int)
    requires
        0 <= i <= k < queue.len(),
        !joins(first, queue[k]),
    ensures
        i + joining(first, queue, i) <= k,
    decreases k - i,
{
    if i < k && joins(first, queue[i]) {
        other_work_keeps_its_turn(first, queue, i + 1, k);
    }
}

/// Skips and mute never repeat.
pub proof fn a_held_key_only_moves_the_volume(command: Seq<char>)
    ensures
        work_of(command, true) matches Some(op) ==> op is Volume,
{
}

/// A connection that failed is not used again: the next press connects anew.
pub proof fn a_failed_connection_is_dropped(w: Worker, job: Request, next: Request)
    ensures
        ({
            let after = w.failing(job, SonosError::Transport).0;
            after.begun(next, true).1.call == Call::Connect(next.target.host)
        }),
{
}

/// A key on a speaker's row is its own work: the volume by two either way, mute,
/// and skips that way. Only the volume repeats.
pub proof fn a_key_is_its_own_work(command: Seq<char>, repeat: bool)
    ensures
        work_of("volume-up"@, repeat) == Some(Op::Volume(2)),
        work_of("volume-down"@, repeat) == Some(Op::Volume(-2i8)),
        work_of("mute"@, false) == Some(Op::ToggleMute),
        work_of("next"@, false) == Some(Op::Skip(true)),
        work_of("previous"@, false) == Some(Op::Skip(false)),
        work_of("mute"@, true) is None,
        work_of("next"@, true) is None,
        work_of("previous"@, true) is None,
        command != "volume-up"@ && command != "volume-down"@ && command != "mute"@ && command
            != "next"@ && command != "previous"@ ==> work_of(command, repeat) is None,
{
    reveal_strlit("volume-up");
    reveal_strlit("volume-down");
    reveal_strlit("mute");
    reveal_strlit("next");
    reveal_strlit("previous");
    assert("volume-up"@.len() == 9 && "volume-up"@[0] == 'v');
    assert("volume-down"@.len() == 11 && "volume-down"@[0] == 'v');
    assert("mute"@.len() == 4 && "mute"@[0] == 'm');
    assert("next"@.len() == 4 && "next"@[0] == 'n');
    assert("previous"@.len() == 8 && "previous"@[0] == 'p');
}

/// A row of the picker that is chosen starts that source, and no other, on the
/// speaker that offered it, and the card names the two. A row that is not there
/// starts nothing; either way the offer is over.
pub proof fn a_chosen_source_is_started_on_its_speaker(
    c: Controller,
    offer: Offer,
    index: usize,
    config: Option<&Config>,
    highlighted: int,
    above: Above,
    now: u64,
)
    requires
        c.offered == Some(offer),
        now <= 0x7fff_ffff_ffff_ffff,
    ensures
        ({
            let (after, sent) = c.pressed(
                Input::Choose(index),
                config,
                highlighted,
                above,
                now,
            );
            &&& after.offered is None
            &&& index >= offer.sources@.len() ==> sent is None && after.card == c.card
            &&& index < offer.sources@.len() ==> {
                let picked = offer.sources@[index as int];
                &&& sent matches Some(request)
                &&& request.target == offer.target && request.generation == c.generation
                &&& request.op matches Op::Select { id, name }
                &&& id == picked.id && name == picked.name
                &&& after.card matches Some(card)
                &&& card.spec_name() == picked.name@
                &&& card.spec_caption() == "Starting on "@ + offer.target.name@ + "…"@
                &&& after.card_until == Some((now + 8000) as u64)
            }
        }),
        c.offered is None ==> c.pressed(
            Input::Choose(index),
            config,
            highlighted,
            above,
            now,
        ).1 is None,
{
}

/// The menu key asks the highlighted speaker for its sources, and says so; not
/// while a list is up, and not on another row.
pub proof fn the_menu_key_finds_the_speakers_sources(
    c: Controller,
    config: &Config,
    highlighted: int,
    above: Above,
    now: u64,
)
    ensures
        ({
            let (after, sent) = c.pressed(
                Input::Menu,
                Some(config),
                highlighted,
                above,
                now,
            );
            let speaker = match row_device(*config, c.room@, highlighted) {
                Some(device) => speaker_of(device),
                None => None,
            };
            if highlighted < 0 || above.chooser || speaker is None {
                sent is None && after == c
            } else {
                &&& sent matches Some(request)
                &&& Some(request.target) == speaker && request.op is Sources && request.generation
                    == c.generation
                &&& after.card matches Some(card)
                &&& card.spec_name() == request.target.name@
                &&& card.spec_caption() == "Finding Sonos sources…"@
            }
        }),
{
}

/// A speaker is a Sonos device with an address, under its own name.
pub proof fn a_speaker_is_a_sonos_device(device: Device)
    ensures
        match speaker_of(device) {
            Some(target) => {
                &&& device.integration matches Some(Integration::Sonos { host })
                &&& ipv4_of(host@) is Some
                &&& target.host == ipv4_of(host@)->0 as u32
                &&& target.id == device.id && target.name == device.name
            },
            None => !(device.integration matches Some(Integration::Sonos { host }) && ipv4_of(
                host@,
            ) is Some),
        },
{
}

/// An answer puts its card up, a volume for a second and a half, a failure for
/// four seconds, anything else for two; sources are offered and their picker slid
/// in where nothing is over the room, and none is said.
pub proof fn an_answer_is_shown(
    c: Controller,
    card: Feedback,
    target: Target,
    sources: Vec<Source>,
    above: Above,
    now: u64,
)
    requires
        now <= 0x7fff_ffff_ffff_ffff,
    ensures
        ({
            let (after, slides) = c.received(Report::Card(card), above, now);
            &&& after.card == Some(card) && !slides && after.offered == c.offered
            &&& card is Volume ==> after.card_until == Some((now + 1500) as u64)
            &&& !(card is Volume) ==> after.card_until == Some((now + 2000) as u64)
        }),
        ({
            let (after, slides) = c.received(Report::Failed(card), above, now);
            after.card == Some(card) && !slides && after.card_until == Some((now + 4000) as u64)
        }),
        ({
            let (after, slides) = c.received(Report::Sources { target, sources }, above, now);
            if sources@.len() == 0 {
                &&& !slides && after.offered == c.offered
                &&& after.card matches Some(said)
                &&& said.spec_name() == "Add favourites in the Sonos app"@
                &&& said.spec_caption() == "No sources for "@ + target.name@
            } else if above.chooser || above.covered {
                after == c && !slides
            } else {
                &&& slides && after.chooser_pending && after.card == c.card
                &&& after.offered matches Some(offer)
                &&& offer.target == target && offer.sources == sources
            }
        }),
{
}

/// What a card says: the speaker or the source in bold, and what happened above
/// it; a level is drawn for a volume alone.
pub proof fn a_card_says_what_happened(
    speaker: String,
    source: String,
    level: u8,
    next: bool,
    error: SonosError,
)
    ensures
        ({
            let card = Feedback::Volume { speaker, level };
            card.spec_name() == speaker@ && card.spec_caption() == "Volume"@ && card.spec_volume()
                == Some(level)
        }),
        ({
            let card = Feedback::Muted { speaker };
            card.spec_name() == speaker@ && card.spec_caption() == "Muted"@
                && card.spec_volume() is None
        }),
        ({
            let card = Feedback::Unmuted { speaker };
            card.spec_name() == speaker@ && card.spec_caption() == "Unmuted"@
                && card.spec_volume() is None
        }),
        ({
            let card = Feedback::Skipped { speaker, next };
            card.spec_name() == speaker@ && (next ==> card.spec_caption() == "Next track"@) && (
            !next ==> card.spec_caption() == "Previous track"@)
        }),
        ({
            let card = Feedback::Playing { source, speaker };
            card.spec_name() == source@ && card.spec_caption() == "Playing on "@ + speaker@
        }),
        ({
            let card = Feedback::Failed { speaker, error };
            &&& card.spec_name() == problem_text(error)
            &&& error is NotCoordinator ==> card.spec_caption() == speaker@ + " is grouped"@
            &&& !(error is NotCoordinator) ==> card.spec_caption() == speaker@
        }),
{
}

/// A problem on a card, in words of its size.
pub proof fn a_problem_fits_its_card(coordinator: String, code: String, sentence: String)
    ensures
        problem_text(SonosError::NotCoordinator { coordinator }) == "Control playback on "@
            + coordinator@,
        problem_text(SonosError::Transport) == "Cannot reach the speaker"@,
        problem_text(SonosError::Cancelled { sentence }) == sentence@,
        problem_text(SonosError::Other { sentence }) == sentence@,
        code@ == "ERROR_PLAYBACK_NO_CONTENT"@ ==> problem_text(SonosError::Api { code, sentence })
            == "Sonos found nothing to play there"@,
        code@ != "ERROR_PLAYBACK_NO_CONTENT"@ ==> problem_text(SonosError::Api { code, sentence })
            == sentence@,
{
}

/// The presses of a held key add up, up and down, until twenty.
pub proof fn presses_add_up(first: Request, queue: Seq<Request>, n: int)
    requires
        0 < n <= queue.len(),
        queue[n - 1].op is Volume,
        -20 <= summed(first, queue, n - 1) <= 20,
    ensures
        ({
            let before = summed(first, queue, n - 1);
            let step = queue[n - 1].op->Volume_0 as int;
            &&& -20 <= before + step <= 20 ==> summed(first, queue, n) == before + step
            &&& before + step > 20 ==> summed(first, queue, n) == 20
            &&& before + step < -20 ==> summed(first, queue, n) == -20
        }),
        first.op is Volume ==> summed(first, queue, 0) == first.op->Volume_0 as int,
{
}

/// Only presses for the same speaker in the same room are summed.
pub proof fn only_the_same_speakers_presses_are_summed(first: Request, next: Request)
    ensures
        joins(first, next) <==> next.op is Volume && next.generation == first.generation
            && next.target.host == first.target.host && next.target.id@ == first.target.id@
            && next.target.name@ == first.target.name@,
{
}

/// A request is dropped where its room was left; otherwise it goes to its own
/// speaker: over the connection that is kept, or over a new one.
pub proof fn a_request_goes_to_its_own_speaker(w: Worker, job: Request)
    ensures
        w.begun(job, false).1.call is Wait && w.begun(job, false).1.reply is None,
        w.cached != Some(job.target.host) ==> w.begun(job, true).1.call == Call::Connect(
            job.target.host,
        ) && w.begun(job, true).0.job == Some(job) && w.begun(job, true).0.at is Connecting
            && w.begun(job, true).0.cached is None,
        w.cached == Some(job.target.host) ==> {
            let call = w.begun(job, true).1.call;
            match job.op {
                Op::Volume(by) => call == Call::Nudge(by),
                Op::ToggleMute => call is IsMuted,
                Op::Skip(next) => call == Call::Skip(next),
                Op::Sources => call is Sources,
                Op::Select { id, .. } => call == Call::Select(id),
            }
        },
{
}

/// Once connected, a request is the same as over a kept connection, and the
/// connection is kept; where that fails it is said, for the room that asked.
pub proof fn a_new_connection_is_kept(w: Worker, job: Request, error: SonosError)
    requires
        w.job == Some(job),
        w.at is Connecting,
    ensures
        ({
            let (after, step) = w.answered(Answer::Connected(Ok(())), true);
            let kept = Worker { cached: Some(job.target.host), ..w };
            (after, step) == kept.begun(job, true) && after.cached == Some(job.target.host)
        }),
        ({
            let (after, step) = w.answered(Answer::Connected(Err(error)), true);
            &&& after.job is None && step.call is Wait
            &&& step.reply == Some(
                (
                    job.generation,
                    Report::Failed(Feedback::Failed { speaker: job.target.name, error }),
                ),
            )
        }),
{
}

/// A volume press is followed by the level, which is what the card shows; a mute
/// is set to the opposite of how it was, and said; a skip says which way it went;
/// a source that started is named; and sources are handed over as they came.
pub proof fn what_was_done_is_reported(
    w: Worker,
    job: Request,
    level: u8,
    was: bool,
    sources: Vec<Source>,
)
    requires
        w.job == Some(job),
    ensures
        w.at is Nudging ==> {
            let (after, step) = w.answered(Answer::Taken(Ok(())), true);
            step.call is Level && after.at is ReadingLevel && step.reply is None
        },
        w.at is ReadingLevel ==> w.answered(Answer::Level(Ok(level)), true).1.reply == Some(
            (
                job.generation,
                Report::Card(Feedback::Volume { speaker: job.target.name, level }),
            ),
        ),
        w.at is ReadingMute ==> {
            let (after, step) = w.answered(Answer::Muted(Ok(was)), true);
            &&& step.call matches Call::SetMuted(set)
            &&& set != was && after.at == At::Muting(was)
            &&& w.answered(Answer::Muted(Ok(was)), false).1.call is Wait
        },
        w.at == At::Muting(was) ==> w.answered(Answer::Taken(Ok(())), true).1.reply == Some(
            (
                job.generation,
                if was {
                    Report::Card(Feedback::Unmuted { speaker: job.target.name })
                } else {
                    Report::Card(Feedback::Muted { speaker: job.target.name })
                },
            ),
        ),
        w.at is Acting ==> match job.op {
            Op::Skip(next) => w.answered(Answer::Taken(Ok(())), true).1.reply == Some(
                (
                    job.generation,
                    Report::Card(Feedback::Skipped { speaker: job.target.name, next }),
                ),
            ),
            Op::Select { name, .. } => w.answered(Answer::Taken(Ok(())), true).1.reply == Some(
                (
                    job.generation,
                    Report::Card(Feedback::Playing { source: name, speaker: job.target.name }),
                ),
            ),
            _ => true,
        },
        w.at is Listing ==> w.answered(Answer::Sources(Ok(sources)), true).1.reply == Some(
            (job.generation, Report::Sources { target: job.target, sources }),
        ),
{
}

/// What failed is said, for the room that asked, and the connection is dropped
/// where it was lost; a press that was called off says nothing.
pub proof fn what_failed_is_reported(w: Worker, job: Request, error: SonosError, current: bool)
    requires
        w.job == Some(job),
        w.at is Nudging || w.at is Acting,
    ensures
        ({
            let (after, step) = w.answered(Answer::Taken(Err(error)), current);
            &&& after.job is None && step.call is Wait
            &&& error is Cancelled ==> step.reply is None && after.cached == w.cached
            &&& !(error is Cancelled) ==> step.reply == Some(
                (
                    job.generation,
                    Report::Failed(Feedback::Failed { speaker: job.target.name, error }),
                ),
            )
            &&& error is Transport ==> after.cached is None
            &&& !(error is Transport) ==> after.cached == w.cached
        }),
{
}

/// A room that was left calls off what it asked for and takes its card down; in a
/// room that stays, a card goes when its time is over, or when the picker is up.
pub proof fn leaving_a_room_calls_everything_off(
    c: Controller,
    shown: bool,
    room: Seq<char>,
    above: Above,
    now: u64,
    after: Controller,
)
    requires
        c.followed(shown, room, above, now, after),
    ensures
        after.room@ == room,
        !shown || room != c.room@ ==> {
            &&& c.card_until is Some ==> after.card is None
            &&& after.card_until is None
            &&& c.generation != 0 || c.input@.len() > 0 || c.offered is Some ==> after.generation
                != c.generation && after.input@.len() == 0 && after.offered is None
                && !after.chooser_pending
        },
        shown && room == c.room@ ==> {
            &&& after.generation == c.generation && after.input@ == c.input@
            &&& c.card_until matches Some(t) ==> (now >= t ==> after.card is None)
            &&& c.card_until matches Some(t) ==> (now < t && !(c.chooser_pending && above.chooser)
                ==> after.card == c.card && after.card_until == Some(t))
            &&& c.chooser_pending && above.chooser ==> after.card is None && !after.chooser_pending
                && after.offered == c.offered
            &&& c.chooser_pending && !above.chooser ==> after.chooser_pending && after.offered
                == c.offered
            &&& !c.chooser_pending && above.chooser && above.sources ==> after.offered == c.offered
            &&& !c.chooser_pending && !(above.chooser && above.sources) ==> after.offered is None
        },
{
}

/// The title that the picker is known by.
pub proof fn the_picker_has_its_title()
    ensures
        CHOOSER_TITLE@ == "SONOS SOURCES"@,
{
}

} // verus!
