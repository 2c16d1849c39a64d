//! The microphone key: where the speech goes, what comes back, and what the
//! overlay says meanwhile.
//!
//! The caller captures and streams; each event of the run is handed to
//! [`Run::event`], and its end to [`Run::finish`].
use crate::text::{
    after, begins, first_is_at_most, first_of, letters, parse, parsed, same, split_once,
    starts_with, strip_prefix, trim, trimmed,
};
use vstd::prelude::*;

verus! {

/// The port that Home Assistant listens on where none is given.
pub const DEFAULT_PORT: u16 = 8123;

/// The longest recording, in milliseconds.
pub const LIMIT_MS: u64 = 30000;

/// What the speech is for, decided when the key goes down.
#[derive(Clone, Copy, PartialEq, Eq, Structural, Debug)]
pub enum Target {
    /// Words into the on-screen keyboard: the run stops after speech-to-text.
    Dictation,
    /// A request to the house: the run continues to the intent stage.
    Assistant,
}

/// The stage that a run ends with.
#[derive(Clone, Copy, PartialEq, Eq, Structural, Debug)]
pub enum Stage {
    SpeechToText,
    Intent,
}

/// The stage that a run ends with.
pub fn end_stage(target: Target) -> (r: Stage)
    ensures
        r == match target {
            Target::Dictation => Stage::SpeechToText,
            Target::Assistant => Stage::Intent,
        },
        r is Intent <==> target is Assistant,
{
    match target {
        Target::Dictation => Stage::SpeechToText,
        Target::Assistant => Stage::Intent,
    }
}

/// Where a run is, for the overlay. Ordered as a run proceeds.
#[derive(Clone, Copy, PartialEq, Eq, Structural, Debug)]
pub enum Phase {
    /// Device open, connecting and authenticating to Home Assistant.
    Connecting,
    /// Audio is going up.
    Listening,
    /// The stream is over; Home Assistant is transcribing or answering.
    Thinking,
    Done,
    Failed,
}

impl Phase {
    /// The overlay's heading.
    pub open spec fn heading(self) -> Seq<char> {
        match self {
            Phase::Connecting => "CONNECTING"@,
            Phase::Listening => "LISTENING"@,
            Phase::Thinking => "THINKING"@,
            Phase::Done => "HEARD"@,
            Phase::Failed => "VOICE FAILED"@,
        }
    }

    /// The overlay's heading.
    pub fn label(self) -> (r: &'static str)
        ensures
            r@ == self.heading(),
            r@ == (match self {
                Phase::Connecting => "CONNECTING"@,
                Phase::Listening => "LISTENING"@,
                Phase::Thinking => "THINKING"@,
                Phase::Done => "HEARD"@,
                Phase::Failed => "VOICE FAILED"@,
            }),
    {
        match self {
            Phase::Connecting => "CONNECTING",
            Phase::Listening => "LISTENING",
            Phase::Thinking => "THINKING",
            Phase::Done => "HEARD",
            Phase::Failed => "VOICE FAILED",
        }
    }

    /// The phase's own word.
    pub open spec fn spec_name(self) -> Seq<char> {
        match self {
            Phase::Connecting => "connecting"@,
            Phase::Listening => "listening"@,
            Phase::Thinking => "thinking"@,
            Phase::Done => "done"@,
            Phase::Failed => "failed"@,
        }
    }

    /// The phase's name.
    pub fn name(self) -> (r: &'static str)
        ensures
            r@ == self.spec_name(),
            r@ == (match self {
                Phase::Connecting => "connecting"@,
                Phase::Listening => "listening"@,
                Phase::Thinking => "thinking"@,
                Phase::Done => "done"@,
                Phase::Failed => "failed"@,
            }),
    {
        match self {
            Phase::Connecting => "connecting",
            Phase::Listening => "listening",
            Phase::Thinking => "thinking",
            Phase::Done => "done",
            Phase::Failed => "failed",
        }
    }
}

/// How a run ended, handed to the screen once.
#[derive(Debug)]
pub enum Outcome {
    /// Speech-to-text produced words for the keyboard.
    Dictated(String),
    /// The assistant answered. `heard` may be empty.
    Answered { heard: String, said: String },
    /// Nothing heard, or an error.
    Failed(String),
    /// No Home Assistant connection is saved; the recording went to a file.
    NoAssistant,
}

/// How a run ended, in its texts.
#[verifier::ext_equal]
pub enum End {
    Dictated(Seq<char>),
    Answered { heard: Seq<char>, said: Seq<char> },
    Failed(Seq<char>),
    NoAssistant,
}

impl View for Outcome {
    type V = End;

    open spec fn view(&self) -> End {
        match *self {
            Outcome::Dictated(text) => End::Dictated(text@),
            Outcome::Answered { heard, said } => End::Answered { heard: heard@, said: said@ },
            Outcome::Failed(why) => End::Failed(why@),
            Outcome::NoAssistant => End::NoAssistant,
        }
    }
}

/// The phase that a run ends in.
pub fn last_phase(outcome: &Outcome) -> (r: Phase)
    ensures
        r == match *outcome {
            Outcome::Failed(_) => Phase::Failed,
            Outcome::NoAssistant => Phase::Failed,
            _ => Phase::Done,
        },
        r is Done <==> outcome is Dictated || outcome is Answered,
        r is Done || r is Failed,
{
    match outcome {
        Outcome::Failed(_) => Phase::Failed,
        Outcome::NoAssistant => Phase::Failed,
        _ => Phase::Done,
    }
}

/// The phase that a run begins in: without an endpoint it only listens.
pub fn first_phase(endpoint: bool) -> (r: Phase)
    ensures
        r == if endpoint {
            Phase::Connecting
        } else {
            Phase::Listening
        },
        r is Connecting <==> endpoint,
{
    if endpoint {
        Phase::Connecting
    } else {
        Phase::Listening
    }
}

/// What the overlay shows as a run goes.
#[derive(Debug)]
pub struct Progress {
    pub phase: Option<Phase>,
    pub heard: String,
    pub said: String,
    pub detail: String,
    /// Set once, at the end.
    pub outcome: Option<Outcome>,
}

impl Default for Progress {
    fn default() -> (r: Progress)
        ensures
            r.phase is None,
            r.heard@.len() == 0,
            r.said@.len() == 0,
            r.detail@.len() == 0,
            r.outcome is None,
    {
        Progress {
            phase: None,
            heard: String::new(),
            said: String::new(),
            detail: String::new(),
            outcome: None,
        }
    }
}

/// Where the audio goes: host, port and token from a saved Home Assistant
/// connection.
#[derive(Debug)]
pub struct Endpoint {
    pub host: String,
    pub port: u16,
    pub token: String,
}

/// The place of the last `c`, or the length where there is none.
pub open spec fn last_of(s: Seq<char>, c: char) -> nat
    decreases s.len(),
{
    if s.len() == 0 {
        0
    } else if s.last() == c {
        (s.len() - 1) as nat
    } else if last_of(s.drop_last(), c) == s.drop_last().len() {
        s.len()
    } else {
        last_of(s.drop_last(), c)
    }
}

/// Whether a character is a square bracket.
pub open spec fn bracket(c: char) -> bool {
    c == '[' || c == ']'
}

/// A text without the brackets that it begins with.
pub open spec fn unopened(s: Seq<char>) -> Seq<char>
    decreases s.len(),
{
    if s.len() > 0 && bracket(s[0]) {
        unopened(s.subrange(1, s.len() as int))
    } else {
        s
    }
}

/// A text without the brackets that it ends with.
pub open spec fn unclosed(s: Seq<char>) -> Seq<char>
    decreases s.len(),
{
    if s.len() > 0 && bracket(s.last()) {
        unclosed(s.drop_last())
    } else {
        s
    }
}

/// The port that a text writes, if it writes one.
pub open spec fn port_of(s: Seq<char>) -> Option<int> {
    match parsed(s) {
        Some(n) => if s[0] != '-' && 0 <= n <= 65535 {
            Some(n)
        } else {
            None
        },
        None => None,
    }
}

/// The host and port of a URL without its scheme: what stands before the first
/// slash.
pub open spec fn authority(rest: Seq<char>) -> Seq<char> {
    trimmed(rest.subrange(0, first_of(rest, '/') as int))
}

/// Whether what stands before the last colon can be a host: it holds no closing
/// bracket but at its end.
pub open spec fn host_like(s: Seq<char>) -> bool {
    !s.contains(']') || s.last() == ']'
}

/// The host and port that an authority names. A port that is not one is no port,
/// and the whole is the host.
pub open spec fn host_and_port(authority: Seq<char>) -> (Seq<char>, int) {
    let n = last_of(authority, ':');
    let host = authority.subrange(0, n as int);
    let port = port_of(after(authority, n + 1));
    if n < authority.len() && host_like(host) && port is Some {
        (unclosed(unopened(host)), port->0)
    } else {
        (authority, DEFAULT_PORT as int)
    }
}

/// What a saved URL and token come to: an endpoint's host and port, or the
/// sentence that says what is wrong. The client speaks plain WebSocket alone.
pub open spec fn endpoint_of(url: Seq<char>, token: Seq<char>) -> Result<
    (Seq<char>, int),
    Seq<char>,
> {
    let url = trimmed(url);
    if !begins(url, "http://"@) && begins(url, "https://"@) {
        Err(
            "Voice needs an http:// Home Assistant URL: the remote's Assist client does not speak TLS yet"@,
        )
    } else {
        let rest = if begins(url, "http://"@) {
            after(url, "http://"@.len())
        } else {
            url
        };
        let (host, port) = host_and_port(authority(rest));
        if host.len() == 0 {
            Err("The Home Assistant connection has no host"@)
        } else if trimmed(token).len() == 0 {
            Err("The Home Assistant connection has no access token"@)
        } else {
            Ok((host, port))
        }
    }
}

proof fn last_is_at_most(s: Seq<char>, c: char)
    ensures
        last_of(s, c) <= s.len(),
    decreases s.len(),
{
    if s.len() > 0 {
        last_is_at_most(s.drop_last(), c);
    }
}

fn last_place(chars: &Vec<char>, c: char) -> (r: usize)
    ensures
        r == last_of(chars@, c),
        r <= chars@.len(),
{
    let count: usize = chars.len();
    let mut n: usize = count;
    assert(chars@.take(n as int) =~= chars@);
    while n > 0
        invariant
            n <= count,
            count == chars@.len(),
            last_of(chars@, c) == if last_of(chars@.take(n as int), c) == n {
                count as nat
            } else {
                last_of(chars@.take(n as int), c)
            },
        decreases n,
    {
        assert(chars@.take(n as int).drop_last() =~= chars@.take(n - 1));
        proof {
            last_is_at_most(chars@.take(n - 1), c);
        }
        if chars[n - 1] == c {
            return n - 1;
        }
        n = n - 1;
    }
    count
}

fn holds(s: &str, c: char) -> (r: bool)
    ensures
        r == s@.contains(c),
{
    let chars = letters(s);
    let mut i: usize = 0;
    while i < chars.len()
        invariant
            chars@ == s@,
            i <= chars.len(),
            forall|k: int| 0 <= k < i ==> s@[k] != c,
        decreases chars.len() - i,
    {
        if chars[i] == c {
            assert(s@[i as int] == c);
            return true;
        }
        i = i + 1;
    }
    false
}

fn without_brackets(s: &str) -> (r: &str)
    ensures
        r@ == unclosed(unopened(s@)),
{
    let chars = letters(s);
    let mut from: usize = 0;
    let mut to: usize = chars.len();
    assert(s@.subrange(0, s@.len() as int) =~= s@);
    while from < to && (chars[from] == '[' || chars[from] == ']')
        invariant
            chars@ == s@,
            from <= to == s@.len(),
            unopened(s@) == unopened(s@.subrange(from as int, to as int)),
        decreases to - from,
    {
        assert(s@.subrange(from as int, to as int).subrange(1, to - from) =~= s@.subrange(
            from + 1,
            to as int,
        ));
        from = from + 1;
    }
    while from < to && (chars[to - 1] == '[' || chars[to - 1] == ']')
        invariant
            chars@ == s@,
            from <= to <= s@.len(),
            unclosed(unopened(s@)) == unclosed(s@.subrange(from as int, to as int)),
        decreases to - from,
    {
        assert(s@.subrange(from as int, to as int).drop_last() =~= s@.subrange(
            from as int,
            to - 1,
        ));
        to = to - 1;
    }
    s.substring_char(from, to)
}

fn parse_port(s: &str) -> (r: Option<u16>)
    ensures
        match r {
            Some(n) => port_of(s@) == Some(n as int),
            None => port_of(s@) is None,
        },
{
    match parse(s, 65535) {
        Some(n) => if n >= 0 && s.get_char(0) != '-' {
            Some(n as u16)
        } else {
            None
        },
        None => None,
    }
}

impl Endpoint {
    /// From a Home Assistant base URL as it is saved.
    pub fn from_url(url: &str, token: &str) -> (r: Result<Endpoint, String>)
        ensures
            match endpoint_of(url@, token@) {
                Ok((host, port)) => r matches Ok(e) && e.host@ == host && e.port == port
                    && e.token@ == token@,
                Err(why) => r matches Err(text) && text@ == why,
            },
    {
        let url = trim(url);
        let rest = match strip_prefix(url, "http://") {
            Some(rest) => rest,
            None => {
                if starts_with(url, "https://") {
                    return Err(
                        "Voice needs an http:// Home Assistant URL: the remote's Assist client does not speak TLS yet".to_owned(),
                    );
                }
                url
            },
        };
        let whole = trim(before_slash(rest));
        let chars = letters(whole);
        let count: usize = chars.len();
        let n: usize = last_place(&chars, ':');
        let mut host = whole;
        let mut port: u16 = DEFAULT_PORT;
        if n < count {
            let head = whole.substring_char(0, n);
            assert(head@ == whole@.subrange(0, n as int));
            let closed = n > 0 && chars[n - 1] == ']';
            assert(n > 0 ==> head@.last() == chars@[n - 1]);
            assert(n == 0 ==> !head@.contains(']'));
            if !holds(head, ']') || closed {
                match parse_port(whole.substring_char(n + 1, count)) {
                    Some(given) => {
                        host = without_brackets(head);
                        port = given;
                    },
                    None => {},
                }
            }
        }
        if host.unicode_len() == 0 {
            return Err("The Home Assistant connection has no host".to_owned());
        }
        if trim(token).unicode_len() == 0 {
            return Err("The Home Assistant connection has no access token".to_owned());
        }
        Ok(Endpoint { host: host.to_owned(), port, token: token.to_owned() })
    }
}

fn before_slash(s: &str) -> (r: &str)
    ensures
        r@ == s@.subrange(0, first_of(s@, '/') as int),
{
    match split_once(s, '/') {
        Some((head, _)) => head,
        None => {
            proof {
                first_is_at_most(s@, '/');
            }
            assert(s@.subrange(0, s@.len() as int) =~= s@);
            s
        },
    }
}

/// A pipeline's error code in words that a person can act on; anything else as
/// it is.
pub open spec fn readable_text(reason: Seq<char>) -> Seq<char> {
    if reason == "stt-no-text-recognized"@ {
        "Nothing heard"@
    } else if reason == "stt-provider-missing"@ || reason == "stt-provider-unsupported-metadata"@ {
        "The Home Assistant pipeline has no speech-to-text engine"@
    } else if reason == "intent-not-supported"@ || reason == "intent-failed"@ {
        "Home Assistant could not handle that request"@
    } else if reason == "stt-stream-failed"@ {
        "Home Assistant could not process the audio"@
    } else {
        reason
    }
}

/// A pipeline's error code in words that a person can act on.
pub fn readable(reason: &str) -> (r: String)
    ensures
        r@ == readable_text(reason@),
{
    if same(reason, "stt-no-text-recognized") {
        "Nothing heard".to_owned()
    } else if same(reason, "stt-provider-missing") || same(
        reason,
        "stt-provider-unsupported-metadata",
    ) {
        "The Home Assistant pipeline has no speech-to-text engine".to_owned()
    } else if same(reason, "intent-not-supported") || same(reason, "intent-failed") {
        "Home Assistant could not handle that request".to_owned()
    } else if same(reason, "stt-stream-failed") {
        "Home Assistant could not process the audio".to_owned()
    } else {
        reason.to_owned()
    }
}

/// What the pipeline reports as it goes.
#[derive(Debug)]
pub enum Event {
    /// The server has heard the end of the speech.
    SpeechOver,
    Heard { text: String },
    Answered { speech: String },
    Error { code: String, message: String },
    Other,
}

/// What a pipeline that ran to its end reports.
#[derive(Debug)]
pub struct Summary {
    /// An error's code and message.
    pub error: Option<(String, String)>,
    pub text: Option<String>,
    pub speech: Option<String>,
}

/// A run of the pipeline, as far as it has come.
#[derive(Debug)]
pub struct Run {
    pub heard: String,
    pub said: String,
    pub failure: Option<String>,
}

/// An error by its message, or by its code where it has none.
pub open spec fn reason_of(code: String, message: String) -> String {
    if message@.len() == 0 {
        code
    } else {
        message
    }
}

fn reason(code: String, message: String) -> (r: String)
    ensures
        r == reason_of(code, message),
{
    if message.as_str().unicode_len() == 0 {
        code
    } else {
        message
    }
}

/// How a run ends: the words that were heard, what was said, and what went
/// wrong decide.
pub open spec fn ending(
    target: Target,
    heard: Seq<char>,
    said: Seq<char>,
    failure: Option<Seq<char>>,
) -> End {
    let nothing = trimmed(heard).len() == 0;
    match (failure, target) {
        (Some(reason), _) if nothing => End::Failed(readable_text(reason)),
        (None, _) if nothing => End::Failed("Nothing heard"@),
        (_, Target::Dictation) => End::Dictated(heard),
        (Some(reason), Target::Assistant) => End::Answered { heard, said: readable_text(reason) },
        (None, Target::Assistant) => End::Answered { heard, said },
    }
}

/// The text that a summary has, or else what was heard before.
pub open spec fn text_or(text: Option<String>, before: String) -> Seq<char> {
    match text {
        Some(text) => text@,
        None => before@,
    }
}

impl Run {
    /// A run that has heard nothing yet.
    pub fn new() -> (r: Run)
        ensures
            r.heard@.len() == 0,
            r.said@.len() == 0,
            r.failure is None,
    {
        Run { heard: String::new(), said: String::new(), failure: None }
    }

    /// Take an event of the run, and show it. Says whether the microphone is
    /// closed: once the server has the speech, a key that is held on keeps
    /// nothing open.
    pub fn event(&mut self, event: Event, progress: &mut Progress) -> (r: bool)
        ensures
            r == (event is SpeechOver || event is Heard),
            event matches Event::Heard { text } ==> final(self).heard == text && final(progress).heard == text && final(self).said == old(self).said,
            event matches Event::Answered { speech } ==> final(self).said == speech && final(progress).said == speech && final(self).heard == old(self).heard,
            event is Error ==> final(self).failure is Some && final(progress).phase == old(progress).phase,
            event is SpeechOver ==> final(progress).phase == Some(Phase::Thinking),
            *final(self) == (match event {
                Event::Heard { text } => Run { heard: text, ..*old(self) },
                Event::Answered { speech } => Run { said: speech, ..*old(self) },
                Event::Error { code, message } => Run {
                    failure: Some(reason_of(code, message)),
                    ..*old(self)
                },
                _ => *old(self),
            }),
            *final(progress) == (match event {
                Event::SpeechOver => Progress { phase: Some(Phase::Thinking), ..*old(progress) },
                Event::Heard { text } => Progress {
                    heard: text,
                    phase: Some(Phase::Thinking),
                    ..*old(progress)
                },
                Event::Answered { speech } => Progress { said: speech, ..*old(progress) },
                _ => *old(progress),
            }),
    {
        match event {
            Event::SpeechOver => {
                progress.phase = Some(Phase::Thinking);
                true
            },
            Event::Heard { text } => {
                progress.heard = text.clone();
                progress.phase = Some(Phase::Thinking);
                self.heard = text;
                true
            },
            Event::Answered { speech } => {
                progress.said = speech.clone();
                self.said = speech;
                false
            },
            Event::Error { code, message } => {
                self.failure = Some(reason(code, message));
                false
            },
            Event::Other => false,
        }
    }

    /// What went wrong, if anything did: what the run itself reported first.
    pub open spec fn trouble(self, summary: Summary) -> Option<Seq<char>> {
        match self.failure {
            Some(reason) => Some(reason@),
            None => match summary.error {
                Some((code, message)) => Some(reason_of(code, message)@),
                None => None,
            },
        }
    }

    /// How the run ended. The error is the client's own sentence, where it gave
    /// up.
    pub fn finish(self, target: Target, result: Result<Summary, String>) -> (r: Outcome)
        ensures
            r@ == match result {
                Err(why) => End::Failed("Home Assistant: "@ + why@),
                Ok(summary) => ending(
                    target,
                    text_or(summary.text, self.heard),
                    text_or(summary.speech, self.said),
                    self.trouble(summary),
                ),
            },
    {
        let summary = match result {
            Ok(summary) => summary,
            Err(why) => {
                let mut s = "Home Assistant: ".to_owned();
                s.append(why.as_str());
                return Outcome::Failed(s);
            },
        };
        let failure = match self.failure {
            Some(reason) => Some(reason),
            None => match summary.error {
                Some((code, message)) => Some(reason(code, message)),
                None => None,
            },
        };
        let heard = match summary.text {
            Some(text) => text,
            None => self.heard,
        };
        let said = match summary.speech {
            Some(speech) => speech,
            None => self.said,
        };
        let nothing = trim(heard.as_str()).unicode_len() == 0;
        match failure {
            Some(reason) => {
                if nothing {
                    return Outcome::Failed(readable(reason.as_str()));
                }
                match target {
                    Target::Dictation => Outcome::Dictated(heard),
                    Target::Assistant => Outcome::Answered {
                        heard,
                        said: readable(reason.as_str()),
                    },
                }
            },
            None => {
                if nothing {
                    return Outcome::Failed("Nothing heard".to_owned());
                }
                match target {
                    Target::Dictation => Outcome::Dictated(heard),
                    Target::Assistant => Outcome::Answered { heard, said },
                }
            },
        }
    }
}

/// A run that could not connect; the error is the client's own sentence.
pub fn unreachable_hub(error: &str) -> (r: Outcome)
    ensures
        r@ == End::Failed("Could not reach Home Assistant: "@ + error@),
{
    let mut s = "Could not reach Home Assistant: ".to_owned();
    s.append(error);
    Outcome::Failed(s)
}

/// A microphone that could not be opened: what the overlay then shows.
pub fn no_microphone(error: &str, progress: &mut Progress)
    ensures
        final(progress).phase == Some(Phase::Failed),
        final(progress).detail@ == "Microphone unavailable: "@ + error@,
        final(progress).outcome matches Some(o) && o@ == End::Failed(
            "Microphone unavailable: "@ + error@,
        ),
        final(progress).heard == old(progress).heard,
        final(progress).said == old(progress).said,
{
    let mut s = "Microphone unavailable: ".to_owned();
    s.append(error);
    progress.phase = Some(Phase::Failed);
    progress.detail = s.clone();
    progress.outcome = Some(Outcome::Failed(s));
}

/// A run is over: the overlay shows its last phase, and the outcome waits to be
/// taken.
pub fn ended(outcome: Outcome, progress: &mut Progress)
    ensures
        *final(progress) == (Progress {
            phase: Some(
                match outcome {
                    Outcome::Failed(_) => Phase::Failed,
                    Outcome::NoAssistant => Phase::Failed,
                    _ => Phase::Done,
                },
            ),
            outcome: Some(outcome),
            ..*old(progress)
        }),
{
    progress.phase = Some(last_phase(&outcome));
    progress.outcome = Some(outcome);
}

/// The light that says the microphone is open, and whether it is.
#[derive(Clone, Copy, PartialEq, Eq, Structural, Debug)]
pub struct Indicator {
    pub live: bool,
    pub open: bool,
}

impl Indicator {
    /// The device is never open while the light is dark.
    pub open spec fn wf(self) -> bool {
        self.open ==> self.live
    }

    /// Dark, and closed.
    pub fn new() -> (r: Indicator)
        ensures
            r == (Indicator { live: false, open: false }),
            r.wf(),
    {
        Indicator { live: false, open: false }
    }

    /// The key goes down. The light comes on before the device is opened; while
    /// it is on the press is ignored. Says whether to open the device.
    pub fn press(&mut self) -> (r: bool)
        requires
            old(self).wf(),
        ensures
            r == !old(self).live,
            *final(self) == (Indicator { live: true, ..*old(self) }),
            final(self).wf(),
    {
        let idle = !self.live;
        self.live = true;
        idle
    }

    /// The device has been opened, or could not be.
    pub fn opened(&mut self, found: bool)
        requires
            old(self).wf(),
            old(self).live,
        ensures
            *final(self) == (Indicator { live: found, open: found }),
            final(self).wf(),
    {
        self.live = found;
        self.open = found;
    }

    /// The device has been closed; the light stays until the run is over.
    pub fn closed(&mut self)
        requires
            old(self).wf(),
        ensures
            *final(self) == (Indicator { open: false, ..*old(self) }),
            final(self).wf(),
    {
        self.open = false;
    }

    /// The run is over, its device closed.
    pub fn over(&mut self)
        requires
            !old(self).open,
        ensures
            *final(self) == (Indicator { live: false, open: false }),
            final(self).wf(),
    {
        self.live = false;
    }
}

/// A run never hands out words that nobody spoke: without any it has failed.
pub proof fn nothing_heard_is_a_failure(
    target: Target,
    heard: Seq<char>,
    said: Seq<char>,
    failure: Option<Seq<char>>,
)
    requires
        trimmed(heard).len() == 0,
    ensures
        ending(target, heard, said, failure) is Failed,
{
}

/// Dictated words are not lost to an error that came after them.
pub proof fn dictated_words_survive_an_error(
    heard: Seq<char>,
    said: Seq<char>,
    failure: Option<Seq<char>>,
)
    requires
        trimmed(heard).len() > 0,
    ensures
        ending(Target::Dictation, heard, said, failure) == End::Dictated(heard),
{
}

/// A hub that is reached over TLS is refused, whatever else its URL holds.
pub proof fn tls_is_refused(url: Seq<char>, token: Seq<char>)
    requires
        begins(trimmed(url), "https://"@),
    ensures
        endpoint_of(url, token) is Err,
{
    reveal_strlit("http://");
    reveal_strlit("https://");
    if begins(trimmed(url), "http://"@) {
        assert(trimmed(url).subrange(0, 7)[4] == ':');
        assert(trimmed(url).subrange(0, 8)[4] == 's');
    }
}

/// What a run comes to: words in the keyboard's field, or an answer beside what
/// was heard; an error where nothing was; and an error in place of the answer
/// where something was.
pub proof fn a_run_ends_as_what_it_was_for(
    heard: Seq<char>,
    said: Seq<char>,
    reason: Seq<char>,
    target: Target,
)
    ensures
        trimmed(heard).len() > 0 ==> {
            &&& ending(Target::Dictation, heard, said, None) == End::Dictated(heard)
            &&& ending(Target::Assistant, heard, said, None) == (End::Answered { heard, said })
            &&& ending(Target::Assistant, heard, said, Some(reason)) == (End::Answered {
                heard,
                said: readable_text(reason),
            })
        },
        trimmed(heard).len() == 0 ==> {
            &&& ending(target, heard, said, None) == End::Failed("Nothing heard"@)
            &&& ending(target, heard, said, Some(reason)) == End::Failed(readable_text(reason))
        },
{
}

/// An error's code is said in words, and anything else as it came.
pub proof fn an_error_code_is_said_in_words(reason: Seq<char>)
    ensures
        readable_text("stt-no-text-recognized"@) == "Nothing heard"@,
        readable_text("stt-provider-missing"@) == "The Home Assistant pipeline has no speech-to-text engine"@,
        readable_text("stt-provider-unsupported-metadata"@) == "The Home Assistant pipeline has no speech-to-text engine"@,
        readable_text("intent-not-supported"@) == "Home Assistant could not handle that request"@,
        readable_text("intent-failed"@) == "Home Assistant could not handle that request"@,
        readable_text("stt-stream-failed"@) == "Home Assistant could not process the audio"@,
        reason != "stt-no-text-recognized"@ && reason != "stt-provider-missing"@ && reason
            != "stt-provider-unsupported-metadata"@ && reason != "intent-not-supported"@ && reason
            != "intent-failed"@ && reason != "stt-stream-failed"@ ==> readable_text(reason)
            == reason,
{
    reveal_strlit("stt-no-text-recognized");
    reveal_strlit("stt-provider-missing");
    reveal_strlit("stt-provider-unsupported-metadata");
    reveal_strlit("intent-not-supported");
    reveal_strlit("intent-failed");
    reveal_strlit("stt-stream-failed");
    assert("stt-no-text-recognized"@.len() == 22 && "stt-no-text-recognized"@[0] == 's');
    assert("stt-provider-missing"@.len() == 20 && "stt-provider-missing"@[0] == 's');
    assert("stt-provider-unsupported-metadata"@.len() == 33 && "stt-provider-unsupported-metadata"@[0] == 's');
    assert("intent-not-supported"@.len() == 20 && "intent-not-supported"@[0] == 'i');
    assert("intent-failed"@.len() == 13 && "intent-failed"@[0] == 'i');
    assert("stt-stream-failed"@.len() == 17 && "stt-stream-failed"@[0] == 's');
}

/// What went wrong is what the run said first, else what its end says: the message
/// where there is one, and the code where there is none.
pub proof fn a_message_goes_before_its_code(
    run: Run,
    summary: Summary,
    code: String,
    message: String,
)
    ensures
        message@.len() > 0 ==> reason_of(code, message) == message,
        message@.len() == 0 ==> reason_of(code, message) == code,
        run.failure matches Some(reason) ==> run.trouble(summary) == Some(reason@),
        run.failure is None && summary.error == Some((code, message)) ==> run.trouble(summary)
            == Some(reason_of(code, message)@),
        run.failure is None && summary.error is None ==> run.trouble(summary) is None,
{
}

/// What the end of a run tells goes before what came on the way.
pub proof fn the_end_goes_before_the_way(text: String, before: String)
    ensures
        text_or(Some(text), before) == text@,
        text_or(None, before) == before@,
{
}

/// The place of the last mark is behind everything that has none.
proof fn the_last_mark(head: Seq<char>, tail: Seq<char>, c: char)
    requires
        !tail.contains(c),
    ensures
        last_of(head + seq![c] + tail, c) == head.len(),
    decreases tail.len(),
{
    let s = head + seq![c] + tail;
    if tail.len() == 0 {
        assert(s.last() == c);
    } else {
        assert(tail.last() != c);
        assert(s.last() == tail.last());
        let rest = tail.drop_last();
        assert forall|i: int| 0 <= i < rest.len() implies rest[i] != c by {
            assert(tail[i] != c);
        }
        assert(s.drop_last() =~= head + seq![c] + rest);
        the_last_mark(head, rest, c);
    }
}

/// A host and its port are what stands before and behind the last colon; without a
/// port it is the usual one.
pub proof fn a_host_and_its_port(host: Seq<char>, port: Seq<char>, n: int)
    requires
        port_of(port) == Some(n),
        !port.contains(':'),
        host.len() > 0,
        !bracket(host[0]) && !bracket(host.last()) && !host.contains(']'),
    ensures
        host_and_port(host + seq![':'] + port) == (host, n),
{
    the_last_mark(host, port, ':');
    let all = host + seq![':'] + port;
    assert(all.subrange(0, host.len() as int) =~= host);
    assert(all.subrange((host.len() + 1) as int, all.len() as int) =~= port);
}

/// A host without a port is reached at the usual one.
pub proof fn a_host_without_a_port(host: Seq<char>)
    requires
        !host.contains(':'),
    ensures
        host_and_port(host) == (host, 8123int),
{
    no_mark(host, ':');
}

proof fn no_mark(s: Seq<char>, c: char)
    requires
        !s.contains(c),
    ensures
        last_of(s, c) == s.len(),
    decreases s.len(),
{
    if s.len() > 0 {
        assert(s.last() != c);
        let rest = s.drop_last();
        assert forall|i: int| 0 <= i < rest.len() implies rest[i] != c by {
            assert(s[i] != c);
        }
        no_mark(rest, c);
    }
}

/// Where speech goes needs a host and a token, and says which is missing; a secure
/// address is refused.
pub proof fn speech_needs_a_host_and_a_token(url: Seq<char>, token: Seq<char>, rest: Seq<char>)
    ensures
        trimmed(url) == "http://"@ + rest ==> match endpoint_of(url, token) {
            Ok((host, port)) => (host, port) == host_and_port(authority(rest)) && host.len() > 0
                && trimmed(token).len() > 0,
            Err(why) => {
                &&& host_and_port(authority(rest)).0.len() == 0 || trimmed(token).len() == 0
                &&& host_and_port(authority(rest)).0.len() == 0 ==> why
                    == "The Home Assistant connection has no host"@
                &&& host_and_port(authority(rest)).0.len() > 0 ==> why
                    == "The Home Assistant connection has no access token"@
            },
        },
{
    reveal_strlit("http://");
    let u = trimmed(url);
    if u == "http://"@ + rest {
        assert(u.subrange(0, 7) =~= "http://"@);
        assert(u.subrange(7, u.len() as int) =~= rest);
    }
}

/// What the overlay is headed with.
pub proof fn the_overlays_headings()
    ensures
        Phase::Connecting.heading() == "CONNECTING"@,
        Phase::Listening.heading() == "LISTENING"@,
        Phase::Thinking.heading() == "THINKING"@,
        Phase::Done.heading() == "HEARD"@,
        Phase::Failed.heading() == "VOICE FAILED"@,
{
}

/// A secure address is refused with its reason, whatever the token.
pub proof fn a_secure_address_is_refused_with_its_reason(url: Seq<char>, token: Seq<char>)
    requires
        begins(trimmed(url), "https://"@),
    ensures
        endpoint_of(url, token) == Err::<(Seq<char>, int), Seq<char>>(
            "Voice needs an http:// Home Assistant URL: the remote's Assist client does not speak TLS yet"@,
        ),
{
    reveal_strlit("http://");
    reveal_strlit("https://");
    let u = trimmed(url);
    assert(u.subrange(0, 8)[4] == 's');
    if begins(u, "http://"@) {
        assert(u.subrange(0, 7)[4] == ':');
    }
}

/// A recording is at most half a minute.
pub proof fn a_recording_is_short()
    ensures
        LIMIT_MS == 30000,
{
}

/// Each phase has a word of its own.
pub proof fn a_phase_has_its_own_word()
    ensures
        Phase::Connecting.spec_name() == "connecting"@,
        Phase::Listening.spec_name() == "listening"@,
        Phase::Thinking.spec_name() == "thinking"@,
        Phase::Done.spec_name() == "done"@,
        Phase::Failed.spec_name() == "failed"@,
{
}

} // verus!
