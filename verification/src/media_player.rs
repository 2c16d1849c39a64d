//! Sonos on the player screen: what it shows, what its keys send, and what the
//! speaker's answers change.
//!
//! The controller decides and remembers. The caller draws [`Screen`], and hands
//! each [`Request`] to the one worker with the controller's generation; of a
//! command it reports back whether the worker had room for it.
use crate::num::{clamp, clamped, later, later_than, next_generation, wrapped};
use crate::rounding::{
    fine, is_positive, kept_number, percent_of, percent_part, positive, powers_divide, rounded,
    seconds, seconds_of, thousandths, thousandths_of, truncated, whole_of, whole_seconds, DOUBLE,
};
use crate::sonos::{
    both_alike, both_same, clock, clock_face, copy_track, kind_text, line, lowercased, names,
    spaced, ModeChange, Modes, Problem, Snapshot, Track,
};
use crate::state_cache::{elapsed, since};
use crate::text::same;
use std::collections::VecDeque;
use vstd::arithmetic::power2::{lemma2_to64, lemma_pow2_adds, lemma_pow2_pos, pow2};
use vstd::prelude::*;

verus! {

/// How often a fresh snapshot is asked for while the screen is up.
pub const REFRESH_MS: u64 = 3000;

/// One press of a volume key on this screen.
pub const VOLUME_STEP: i8 = 5;

/// How long a closed screen is kept for an instant reopen.
pub const VIEW_TTL_MS: u64 = 30000;

/// How long a notice stays.
pub const NOTICE_MS: u64 = 4000;

/// How long the volume card stays.
pub const VOLUME_MS: u64 = 1500;

/// How often the clock moves.
pub const TICK_MS: u64 = 1000;

/// The names of the three sheets: a speaker's while its screen is up, and a
/// film's otherwise.
pub fn sheet_names(music: bool) -> (r: [&'static str; 3])
    ensures
        music ==> r[0]@ == "Sources"@ && r[1]@ == "Modes"@ && r[2]@ == "Up next"@,
        !music ==> r[0]@ == "Chapters"@ && r[1]@ == "Audio"@ && r[2]@ == "Subtitles"@,
{
    if music {
        ["Sources", "Modes", "Up next"]
    } else {
        ["Chapters", "Audio", "Subtitles"]
    }
}

/// What the screen was opened for.
#[derive(Debug)]
pub struct Target {
    pub device: String,
    pub name: String,
    pub room: String,
    /// The speaker's IPv4 address.
    pub host: u32,
}

/// Something a group can play.
#[derive(Debug)]
pub struct Source {
    pub id: String,
    pub name: String,
    pub detail: String,
}

/// What a speaker is told to do.
#[derive(Debug)]
pub enum Op {
    PlayPause,
    Skip(bool),
    Seek(u64),
    Volume(i8),
    ToggleMute,
    Sources,
    Select { id: String, name: String },
    Modes(ModeChange),
}

/// What goes to the worker.
#[derive(Debug)]
pub enum Request {
    /// Connect to the speaker. The artwork that is shown already is not fetched
    /// again.
    Open { host: u32, known_art: Option<String> },
    Refresh,
    Command(Op),
    Close,
}

/// What a command came to.
#[derive(Debug)]
pub enum Done {
    Quiet,
    Volume(u8),
    Muted,
    Unmuted,
    Playing(String),
}

/// What comes back from the worker.
#[derive(Debug)]
pub enum Event {
    State(Result<Snapshot, Problem>),
    Done(Result<Done, Problem>),
    Sources(Result<Vec<Source>, Problem>),
    /// The artwork of an address, and whether it could be had.
    Art { key: String, found: bool },
}

/// The title on the screen.
#[derive(Debug)]
pub enum Title {
    Connecting,
    Text(String),
    /// The named speaker plays nothing.
    Idle(String),
    Failed(Problem),
}

impl Title {
    /// The title's text.
    pub open spec fn spec_text(self) -> Seq<char> {
        match self {
            Title::Connecting => "Connecting to Sonos…"@,
            Title::Text(name) => name@,
            Title::Idle(name) => name@ + " is idle.\nPress Sources to play something."@,
            Title::Failed(problem) => problem.spec_text(),
        }
    }

    /// The title's text.
    pub fn text(&self) -> (r: String)
        ensures
            r@ == self.spec_text(),
    {
        match self {
            Title::Connecting => "Connecting to Sonos…".to_owned(),
            Title::Text(name) => name.clone(),
            Title::Idle(name) => {
                let mut s = name.clone();
                s.append(" is idle.\nPress Sources to play something.");
                s
            },
            Title::Failed(problem) => problem.text(),
        }
    }
}

impl Title {
    fn copy(&self) -> (r: Title)
        ensures
            r == *self,
    {
        match self {
            Title::Connecting => Title::Connecting,
            Title::Text(name) => Title::Text(name.clone()),
            Title::Idle(name) => Title::Idle(name.clone()),
            Title::Failed(problem) => Title::Failed(problem.copy()),
        }
    }
}

/// The line under the title.
#[derive(Debug)]
pub enum Line {
    Blank,
    /// A track's names, or what it plays from where it has none.
    Track { artist: String, album: String, container: String },
    /// What kind of thing is played from.
    Kind(String),
}

impl Line {
    /// The line's text.
    pub open spec fn spec_text(self) -> Seq<char> {
        match self {
            Line::Blank => ""@,
            Line::Track { artist, album, container } => if names(artist@, album@).len() == 0 {
                container@
            } else {
                names(artist@, album@)
            },
            Line::Kind(kind) => if kind@.len() == 0 {
                kind@
            } else {
                lowercased(spaced(kind@))
            },
        }
    }

    /// The line's text.
    pub fn text(&self) -> (r: String)
        ensures
            r@ == self.spec_text(),
    {
        match self {
            Line::Blank => "".to_owned(),
            Line::Track { artist, album, container } => {
                let both = line(artist.as_str(), album.as_str());
                if both.as_str().unicode_len() == 0 {
                    container.clone()
                } else {
                    both
                }
            },
            Line::Kind(kind) => kind_text(kind.as_str()),
        }
    }
}

impl Line {
    fn copy(&self) -> (r: Line)
        ensures
            r == *self,
    {
        match self {
            Line::Blank => Line::Blank,
            Line::Track { artist, album, container } => Line::Track {
                artist: artist.clone(),
                album: album.clone(),
                container: container.clone(),
            },
            Line::Kind(kind) => Line::Kind(kind.clone()),
        }
    }
}

/// The progress line: where the track was when its group was read, and how long
/// it has moved since.
#[derive(Clone, Copy, PartialEq, Eq, Structural, Debug)]
pub enum Progress {
    Blank,
    /// A stream, which has no end.
    Live { read_ms: u64, moved_ms: u64 },
    Timed { read_ms: u64, moved_ms: u64, total_ms: u64 },
}

/// Where a track is, in seconds: a double, in its units.
pub open spec fn track_at(read_ms: u64, moved_ms: u64) -> nat {
    rounded(thousandths(read_ms as nat) + seconds(moved_ms as nat), DOUBLE as nat)
}

/// The same, but not past the end.
pub open spec fn track_within(read_ms: u64, moved_ms: u64, total_ms: u64) -> nat {
    if track_at(read_ms, moved_ms) < thousandths(total_ms as nat) {
        track_at(read_ms, moved_ms)
    } else {
        thousandths(total_ms as nat)
    }
}

/// What is left of a track, in seconds.
pub open spec fn track_left(read_ms: u64, moved_ms: u64, total_ms: u64) -> nat {
    rounded(
        (thousandths(total_ms as nat) - track_within(read_ms, moved_ms, total_ms)) as nat,
        DOUBLE as nat,
    )
}

/// The whole seconds of a time in seconds.
pub open spec fn whole(time: nat) -> nat {
    time / pow2(1074)
}

/// Where a track is, in the coarser units.
fn place_at(read_ms: u64, moved_ms: u64) -> (r: u128)
    ensures
        r * fine() == track_at(read_ms, moved_ms),
        r < 0x400_0000_0000_0000_0000_0000_0000_0000,
{
    let read: u128 = thousandths_of(read_ms);
    let moved: u128 = seconds_of(moved_ms);
    assert(read * fine() + moved * fine() == (read + moved) * fine()) by (nonlinear_arith);
    kept_number(read + moved)
}

fn place_within(read_ms: u64, moved_ms: u64, total_ms: u64) -> (r: (u128, u128))
    ensures
        r.0 * fine() == track_within(read_ms, moved_ms, total_ms),
        r.1 * fine() == thousandths(total_ms as nat),
        r.0 <= r.1 < 0x80_0000_0000_0000_0000_0000_0000_0000,
{
    let at: u128 = place_at(read_ms, moved_ms);
    let total: u128 = thousandths_of(total_ms);
    proof {
        lemma_pow2_pos(1012);
        let s = fine();
        assert((at * s < total * s) == (at < total)) by (nonlinear_arith)
            requires
                s > 0,
        ;
    }
    if at < total {
        (at, total)
    } else {
        (total, total)
    }
}

fn seconds_in(n: u128) -> (r: u64)
    requires
        n < 0x800_0000_0000_0000_0000_0000_0000_0000,
    ensures
        r == whole(n as nat * fine()),
{
    let r: u128 = whole_seconds(n);
    proof {
        powers_divide(n as nat, 1012, 1074);
        lemma_pow2_adds(32, 30);
        lemma2_to64();
        assert(pow2(62) == 0x4000_0000_0000_0000);
        assert(n / 0x4000_0000_0000_0000 <= 0x2000_0000_0000_0000 * 0x10);
    }
    r as u64
}

impl Progress {
    /// The whole seconds that have passed.
    pub open spec fn spec_elapsed(self) -> nat {
        match self {
            Progress::Blank => 0,
            Progress::Live { read_ms, moved_ms } => whole(track_at(read_ms, moved_ms)),
            Progress::Timed { read_ms, moved_ms, total_ms } => whole(
                track_within(read_ms, moved_ms, total_ms),
            ),
        }
    }

    /// The time that has passed.
    pub fn elapsed_text(&self) -> (r: String)
        ensures
            r@ == if *self is Blank {
                ""@
            } else {
                clock_face(self.spec_elapsed())
            },
    {
        match self {
            Progress::Blank => "".to_owned(),
            Progress::Live { read_ms, moved_ms } => clock(
                seconds_in(place_at(*read_ms, *moved_ms)),
            ),
            Progress::Timed { read_ms, moved_ms, total_ms } => clock(
                seconds_in(place_within(*read_ms, *moved_ms, *total_ms).0),
            ),
        }
    }

    /// The time that is left, in whole seconds.
    pub open spec fn spec_left(self) -> nat {
        match self {
            Progress::Timed { read_ms, moved_ms, total_ms } => whole(
                track_left(read_ms, moved_ms, total_ms),
            ),
            _ => 0,
        }
    }

    /// The time that is left.
    pub fn remaining_text(&self) -> (r: String)
        ensures
            *self is Timed ==> r@ == "−"@ + clock_face(self.spec_left()),
            *self is Live ==> r@ == "LIVE"@,
            r@ == (match *self {
                Progress::Blank => ""@,
                Progress::Live { .. } => "LIVE"@,
                Progress::Timed { read_ms, moved_ms, total_ms } => "−"@ + clock_face(
                    whole(track_left(read_ms, moved_ms, total_ms)),
                ),
            }),
    {
        match self {
            Progress::Blank => "".to_owned(),
            Progress::Live { .. } => "LIVE".to_owned(),
            Progress::Timed { read_ms, moved_ms, total_ms } => {
                let (at, total): (u128, u128) = place_within(*read_ms, *moved_ms, *total_ms);
                assert(total * fine() - at * fine() == (total - at) * fine()) by (nonlinear_arith);
                let left: u128 = kept_number(total - at);
                let mut s = "−".to_owned();
                s.append(clock(seconds_in(left)).as_str());
                s
            },
        }
    }
}

/// Where a track is, some time after its group was read. Only a playing track
/// moves.
pub open spec fn progress_after(s: Snapshot, track: Track, since_ms: u64) -> Progress {
    let moved_ms = if s.state@ == "PLAYING"@ {
        since_ms
    } else {
        0
    };
    match track.duration_ms {
        Some(total_ms) => Progress::Timed { read_ms: s.position_ms, moved_ms, total_ms },
        None => Progress::Live { read_ms: s.position_ms, moved_ms },
    }
}

fn progress_now(s: &Snapshot, track: &Track, since_ms: u64) -> (r: Progress)
    ensures
        r == progress_after(*s, *track, since_ms),
{
    let moved_ms: u64 = if same(s.state.as_str(), "PLAYING") {
        since_ms
    } else {
        0
    };
    match track.duration_ms {
        Some(total_ms) => Progress::Timed { read_ms: s.position_ms, moved_ms, total_ms },
        None => Progress::Live { read_ms: s.position_ms, moved_ms },
    }
}

/// The room under the heading.
#[derive(Debug)]
pub enum RoomLine {
    Own(String),
    /// The speaker follows another.
    Member { room: String, coordinator: String },
}

impl RoomLine {
    /// What the line says.
    pub open spec fn spec_text(self) -> Seq<char> {
        match self {
            RoomLine::Own(room) => room@,
            RoomLine::Member { room, coordinator } => room@ + " · Playing from "@ + coordinator@,
        }
    }

    /// The line's text.
    pub fn text(&self) -> (r: String)
        ensures
            r@ == self.spec_text(),
            r@ == (match *self {
                RoomLine::Own(room) => room@,
                RoomLine::Member { room, coordinator } => room@ + " · Playing from "@
                    + coordinator@,
            }),
    {
        match self {
            RoomLine::Own(room) => room.clone(),
            RoomLine::Member { room, coordinator } => {
                let mut s = room.clone();
                s.append(" · Playing from ");
                s.append(coordinator.as_str());
                s
            },
        }
    }
}

impl RoomLine {
    fn copy(&self) -> (r: RoomLine)
        ensures
            r == *self,
    {
        match self {
            RoomLine::Own(room) => RoomLine::Own(room.clone()),
            RoomLine::Member { room, coordinator } => RoomLine::Member {
                room: room.clone(),
                coordinator: coordinator.clone(),
            },
        }
    }
}

/// The sentence over the controls.
#[derive(Debug)]
pub enum Notice {
    Blank,
    BusyReopen,
    BusyRetry,
    StillConnecting,
    Starting(String),
    Muted,
    Unmuted,
    Playing(String),
    Problem(Problem),
}

impl Notice {
    /// The sentence.
    pub open spec fn spec_text(self) -> Seq<char> {
        match self {
            Notice::Blank => ""@,
            Notice::BusyReopen => "Connection busy. Reopen the speaker."@,
            Notice::BusyRetry => "Connection busy. Try again."@,
            Notice::StillConnecting => "Still connecting to the speaker."@,
            Notice::Starting(name) => "Starting "@ + name@ + "…"@,
            Notice::Muted => "Muted"@,
            Notice::Unmuted => "Unmuted"@,
            Notice::Playing(name) => "Playing "@ + name@,
            Notice::Problem(problem) => problem.spec_text(),
        }
    }

    /// The sentence.
    pub fn text(&self) -> (r: String)
        ensures
            r@ == self.spec_text(),
    {
        match self {
            Notice::Blank => "".to_owned(),
            Notice::BusyReopen => "Connection busy. Reopen the speaker.".to_owned(),
            Notice::BusyRetry => "Connection busy. Try again.".to_owned(),
            Notice::StillConnecting => "Still connecting to the speaker.".to_owned(),
            Notice::Starting(name) => {
                let mut s = "Starting ".to_owned();
                s.append(name.as_str());
                s.append("…");
                s
            },
            Notice::Muted => "Muted".to_owned(),
            Notice::Unmuted => "Unmuted".to_owned(),
            Notice::Playing(name) => {
                let mut s = "Playing ".to_owned();
                s.append(name.as_str());
                s
            },
            Notice::Problem(problem) => problem.text(),
        }
    }
}

/// What the sheet that was drawn last lists.
#[derive(Debug)]
pub enum Sheet {
    Blank,
    /// The sources that are known.
    Sources,
    /// Sources that were known when the sheet was drawn, and are no longer.
    Former(Vec<Source>),
    Modes(Modes),
    Next(Option<Track>),
}

impl Sheet {
    /// The sheet once the sources that were known are replaced. What was drawn
    /// stays as it was.
    pub open spec fn outdated(self, sources: Vec<Source>) -> Sheet {
        match self {
            Sheet::Sources => Sheet::Former(sources),
            _ => self,
        }
    }
}

/// The sentence on an open sheet.
#[derive(Debug)]
pub enum Detail {
    Blank,
    FindingSources,
    NoSources,
    CoordinatorsModes,
    NothingQueued,
    Problem(Problem),
}

impl Detail {
    /// The sentence.
    pub open spec fn spec_text(self) -> Seq<char> {
        match self {
            Detail::Blank => ""@,
            Detail::FindingSources => "Finding sources…"@,
            Detail::NoSources => "No sources: add favourites or playlists in the Sonos app."@,
            Detail::CoordinatorsModes => "Play modes belong to the group's coordinator."@,
            Detail::NothingQueued => "Nothing is queued after this."@,
            Detail::Problem(problem) => problem.spec_text(),
        }
    }

    /// The sentence.
    pub fn text(&self) -> (r: String)
        ensures
            r@ == self.spec_text(),
    {
        match self {
            Detail::Blank => "".to_owned(),
            Detail::FindingSources => "Finding sources…".to_owned(),
            Detail::NoSources =>
                "No sources: add favourites or playlists in the Sonos app.".to_owned(),
            Detail::CoordinatorsModes =>
                "Play modes belong to the group's coordinator.".to_owned(),
            Detail::NothingQueued => "Nothing is queued after this.".to_owned(),
            Detail::Problem(problem) => problem.text(),
        }
    }
}

/// What the screen says of the group, which a reopened screen says again.
#[derive(Debug)]
pub struct Presentation {
    pub ready: bool,
    pub connected: bool,
    pub paused: bool,
    pub can_seek: bool,
    pub has_art: bool,
    pub title: Title,
    pub line: Line,
    pub progress: Progress,
    /// The address of the artwork.
    pub art_key: Option<String>,
}

/// Everything on the screen.
#[derive(Debug)]
pub struct Screen {
    pub group: Presentation,
    pub room: RoomLine,
    /// Which sheet is open: none, sources, modes, or up next.
    pub panel: i32,
    pub sheet: Sheet,
    pub detail: Detail,
    pub notice: Notice,
    /// The volume card, while it is up.
    pub volume: Option<u8>,
    /// The control that is shown as selected; none while the screen is closed.
    pub selected: i32,
}

/// A screen that was left.
#[derive(Debug)]
pub struct Left {
    pub device: String,
    pub group: Presentation,
    pub room: RoomLine,
    pub snapshot: Option<Snapshot>,
}

/// A screen that was left, with when, and under which configuration.
#[derive(Debug)]
pub struct Kept {
    pub at: u64,
    pub serial: u64,
    pub screen: Left,
}

/// The controller of the player screen.
#[derive(Debug)]
pub struct Controller {
    pub generation: u64,
    pub target: Option<Target>,
    pub snapshot: Option<Snapshot>,
    /// When the snapshot's position was read.
    pub at: u64,
    pub tick_at: u64,
    pub refresh_at: u64,
    /// A command is out.
    pub busy: bool,
    pub message_until: Option<u64>,
    pub volume_until: Option<u64>,
    pub sources: Vec<Source>,
    /// The control that the D-pad is on: 1 seek, 2 previous, 3 play, 4 next,
    /// 5 to 7 the sheets.
    pub selected: i32,
    pub screen: Screen,
}

/// What a key came to.
#[derive(Debug)]
pub struct Acted {
    /// Whether the key was this screen's; otherwise the screen is left.
    pub handled: bool,
    /// Whether focus goes back to the screen.
    pub focus: bool,
    pub request: Option<Request>,
}

/// A key of the screen.
#[derive(Clone, Copy, PartialEq, Eq, Structural, Debug)]
pub enum Key {
    Back,
    Home,
    Retry,
    Play,
    Next,
    Previous,
    ChapterStep,
    Seek,
    Volume,
    Mute,
    Panel(i32),
    Choose,
    Move { dx: i32, dy: i32 },
    Select,
    Other,
}

/// The key that an action names.
pub open spec fn key_of(action: Seq<char>) -> Key {
    if action == "back"@ || action == "Input.Back"@ {
        Key::Back
    } else if action == "Input.Home"@ {
        Key::Home
    } else if action == "retry"@ {
        Key::Retry
    } else if action == "play"@ {
        Key::Play
    } else if action == "next"@ {
        Key::Next
    } else if action == "previous"@ {
        Key::Previous
    } else if action == "chapter-step"@ {
        Key::ChapterStep
    } else if action == "seek"@ {
        Key::Seek
    } else if action == "volume"@ {
        Key::Volume
    } else if action == "mute"@ {
        Key::Mute
    } else if action == "chapters"@ || action == "Input.ContextMenu"@ {
        Key::Panel(1)
    } else if action == "audio"@ {
        Key::Panel(2)
    } else if action == "subtitles"@ {
        Key::Panel(3)
    } else if action == "choose"@ {
        Key::Choose
    } else if action == "Input.Up"@ {
        Key::Move { dx: 0, dy: -1i32 }
    } else if action == "Input.Down"@ {
        Key::Move { dx: 0, dy: 1 }
    } else if action == "Input.Left"@ {
        Key::Move { dx: -1i32, dy: 0 }
    } else if action == "Input.Right"@ {
        Key::Move { dx: 1, dy: 0 }
    } else if action == "Input.Select"@ {
        Key::Select
    } else {
        Key::Other
    }
}

/// The key that an action names.
pub fn key(action: &str) -> (r: Key)
    ensures
        r == key_of(action@),
{
    if same(action, "back") || same(action, "Input.Back") {
        Key::Back
    } else if same(action, "Input.Home") {
        Key::Home
    } else if same(action, "retry") {
        Key::Retry
    } else if same(action, "play") {
        Key::Play
    } else if same(action, "next") {
        Key::Next
    } else if same(action, "previous") {
        Key::Previous
    } else if same(action, "chapter-step") {
        Key::ChapterStep
    } else if same(action, "seek") {
        Key::Seek
    } else if same(action, "volume") {
        Key::Volume
    } else if same(action, "mute") {
        Key::Mute
    } else if same(action, "chapters") || same(action, "Input.ContextMenu") {
        Key::Panel(1)
    } else if same(action, "audio") {
        Key::Panel(2)
    } else if same(action, "subtitles") {
        Key::Panel(3)
    } else if same(action, "choose") {
        Key::Choose
    } else if same(action, "Input.Up") {
        Key::Move { dx: 0, dy: -1 }
    } else if same(action, "Input.Down") {
        Key::Move { dx: 0, dy: 1 }
    } else if same(action, "Input.Left") {
        Key::Move { dx: -1, dy: 0 }
    } else if same(action, "Input.Right") {
        Key::Move { dx: 1, dy: 0 }
    } else if same(action, "Input.Select") {
        Key::Select
    } else {
        Key::Other
    }
}

/// The key that pressing the selected control stands for.
pub open spec fn control_key(selected: int) -> Key {
    if selected == 1 || selected == 3 {
        Key::Play
    } else if selected == 2 {
        Key::Previous
    } else if selected == 4 {
        Key::Next
    } else if 5 <= selected <= 7 {
        Key::Panel((selected - 4) as i32)
    } else {
        Key::Other
    }
}

/// The row of a control: the seek line, the transport, or the sheets.
pub open spec fn row_of(selected: int) -> int {
    if selected == 1 {
        0
    } else if 5 <= selected <= 7 {
        2
    } else {
        1
    }
}

/// The place of a control in its row.
pub open spec fn column_of(selected: int) -> int {
    if selected == 1 {
        0
    } else if 2 <= selected <= 4 {
        selected - 2
    } else if 5 <= selected <= 7 {
        selected - 5
    } else {
        1
    }
}

/// The last place of a row.
pub open spec fn last_column(row: int) -> int {
    if row == 0 {
        0
    } else {
        2
    }
}

/// The control at a place.
pub open spec fn control_at(row: int, column: int) -> int {
    if row == 0 {
        1
    } else if row == 1 {
        2 + column
    } else {
        5 + column
    }
}

/// The control that the D-pad moves to. A row keeps the column as far as it is
/// wide, and an edge holds.
pub open spec fn stepped(selected: int, dx: int, dy: int) -> int {
    let row = clamped(row_of(selected) + dy, 0, 2);
    let column = if column_of(selected) > last_column(row) {
        last_column(row)
    } else {
        column_of(selected)
    };
    control_at(row, clamped(column + dx, 0, last_column(row)))
}

/// The control that the D-pad moves to.
pub fn step(selected: i32, dx: i32, dy: i32) -> (r: i32)
    ensures
        r == stepped(selected as int, dx as int, dy as int),
        1 <= r <= 7,
{
    let at_row: i64 = if selected == 1 {
        0
    } else if 5 <= selected && selected <= 7 {
        2
    } else {
        1
    };
    let at_column: i64 = if selected == 1 {
        0
    } else if 2 <= selected && selected <= 4 {
        selected as i64 - 2
    } else if 5 <= selected && selected <= 7 {
        selected as i64 - 5
    } else {
        1
    };
    let row: i64 = clamp(at_row + dy as i64, 0, 2);
    let last: i64 = if row == 0 {
        0
    } else {
        2
    };
    let kept: i64 = if at_column > last {
        last
    } else {
        at_column
    };
    let column: i64 = clamp(kept + dx as i64, 0, last);
    if row == 0 {
        1
    } else if row == 1 {
        (2 + column) as i32
    } else {
        (5 + column) as i32
    }
}

/// How far a volume key moves the level: by the whole part of its value, which
/// is a double by its bits, within bounds, or by a step where it has none.
pub open spec fn volume_delta(value: u64) -> int {
    let delta = clamped(truncated(value), -20, 20);
    if delta == 0 {
        VOLUME_STEP as int
    } else {
        delta
    }
}

fn volume_change(value: u64) -> (r: i8)
    ensures
        r == volume_delta(value),
{
    let far: u64 = whole_of(value);
    let near: i8 = if far > 20 {
        20
    } else {
        far as i8
    };
    if near == 0 {
        VOLUME_STEP
    } else if value >= 0x8000_0000_0000_0000 {
        -near
    } else {
        near
    }
}

/// Where in a track so many percent of it lie; the percentage is a double, by
/// its bits.
pub open spec fn seek_position(duration: u64, value: u64) -> u64 {
    if percent_part(duration as nat, value) > u64::MAX {
        u64::MAX
    } else {
        percent_part(duration as nat, value) as u64
    }
}

/// The row that a value chooses.
pub open spec fn chosen_row(value: u64) -> int {
    clamped(truncated(value), 0, usize::MAX as int)
}

fn row_in(value: u64) -> (r: usize)
    ensures
        r == chosen_row(value),
{
    if value >= 0x8000_0000_0000_0000 {
        return 0;
    }
    let row: u64 = whole_of(value);
    if row > usize::MAX as u64 {
        usize::MAX
    } else {
        row as usize
    }
}

/// The change that choosing a play mode asks for: the other way round, and for
/// repeat from off to all, to this track, and off again.
pub open spec fn mode_change(modes: Modes, index: int) -> Option<ModeChange> {
    let none = ModeChange { shuffle: None, repeat: None, repeat_one: None, crossfade: None };
    if index == 0 {
        Some(ModeChange { shuffle: Some(!modes.shuffle), ..none })
    } else if index == 1 {
        if modes.repeat_one {
            Some(ModeChange { repeat: Some(false), repeat_one: Some(false), ..none })
        } else if modes.repeat {
            Some(ModeChange { repeat_one: Some(true), ..none })
        } else {
            Some(ModeChange { repeat: Some(true), ..none })
        }
    } else if index == 2 {
        Some(ModeChange { crossfade: Some(!modes.crossfade), ..none })
    } else {
        None
    }
}

/// The change that choosing a play mode asks for.
pub fn chosen_mode(modes: Modes, index: usize) -> (r: Option<ModeChange>)
    ensures
        r == mode_change(modes, index as int),
{
    let none = ModeChange { shuffle: None, repeat: None, repeat_one: None, crossfade: None };
    if index == 0 {
        Some(ModeChange { shuffle: Some(!modes.shuffle), ..none })
    } else if index == 1 {
        if modes.repeat_one {
            Some(ModeChange { repeat: Some(false), repeat_one: Some(false), ..none })
        } else if modes.repeat {
            Some(ModeChange { repeat_one: Some(true), ..none })
        } else {
            Some(ModeChange { repeat: Some(true), ..none })
        }
    } else if index == 2 {
        Some(ModeChange { crossfade: Some(!modes.crossfade), ..none })
    } else {
        None
    }
}

/// The text of an address that may be missing.
pub open spec fn key_text(key: Option<String>) -> Seq<char> {
    match key {
        Some(url) => url@,
        None => Seq::empty(),
    }
}

/// Whether two addresses that may be missing are the same.
pub fn same_key(a: &Option<String>, b: &Option<String>) -> (r: bool)
    ensures
        r == (key_text(*a) == key_text(*b)),
{
    match (a, b) {
        (Some(a), Some(b)) => same(a.as_str(), b.as_str()),
        (Some(a), None) => {
            assert(a@.len() == 0 ==> a@ =~= Seq::empty());
            a.as_str().unicode_len() == 0
        },
        (None, Some(b)) => {
            assert(b@.len() == 0 ==> b@ =~= Seq::empty());
            b.as_str().unicode_len() == 0
        },
        (None, None) => true,
    }
}

/// The address of a track's artwork.
pub open spec fn art_of(track: Option<Track>) -> Option<String> {
    match track {
        Some(t) => Some(t.image_url),
        None => None,
    }
}

/// What the screen says of a group that was read.
pub open spec fn presented(before: Presentation, s: Snapshot) -> Presentation {
    let track = s.now.current;
    let content = track is Some || s.now.container@.len() > 0;
    let new_art = key_text(art_of(track)) != key_text(before.art_key);
    Presentation {
        ready: content,
        connected: true,
        paused: !(s.state@ == "PLAYING"@ || s.state@ == "BUFFERING"@),
        can_seek: match track {
            Some(t) => s.can_seek && t.duration_ms is Some && !s.spec_member(),
            None => false,
        },
        has_art: before.has_art && !new_art,
        title: match track {
            Some(t) => Title::Text(t.name),
            None => if content {
                Title::Text(s.now.container)
            } else {
                Title::Idle(s.player_name)
            },
        },
        line: match track {
            Some(t) => Line::Track {
                artist: t.artist,
                album: t.album,
                container: s.now.container,
            },
            None => if content {
                Line::Kind(s.now.container_type)
            } else {
                Line::Blank
            },
        },
        progress: match track {
            Some(t) => progress_after(s, t, 0),
            None => if content {
                before.progress
            } else {
                Progress::Blank
            },
        },
        art_key: if new_art {
            art_of(track)
        } else {
            before.art_key
        },
    }
}

/// What the screen says of a speaker that it waits for.
pub open spec fn waiting() -> Presentation {
    Presentation {
        ready: false,
        connected: false,
        paused: true,
        can_seek: false,
        has_art: false,
        title: Title::Connecting,
        line: Line::Blank,
        progress: Progress::Blank,
        art_key: None,
    }
}

fn waiting_now() -> (r: Presentation)
    ensures
        r == waiting(),
{
    Presentation {
        ready: false,
        connected: false,
        paused: true,
        can_seek: false,
        has_art: false,
        title: Title::Connecting,
        line: Line::Blank,
        progress: Progress::Blank,
        art_key: None,
    }
}

impl Presentation {
    fn copy(&self) -> (r: Presentation)
        ensures
            r == *self,
    {
        Presentation {
            ready: self.ready,
            connected: self.connected,
            paused: self.paused,
            can_seek: self.can_seek,
            has_art: self.has_art,
            title: self.title.copy(),
            line: self.line.copy(),
            progress: self.progress,
            art_key: match &self.art_key {
                Some(url) => Some(url.clone()),
                None => None,
            },
        }
    }

    /// Say what a group that was read is.
    pub fn present(&mut self, s: &Snapshot)
        ensures
            *final(self) == presented(*old(self), *s),
    {
        let key = match &s.now.current {
            Some(t) => Some(t.image_url.clone()),
            None => None,
        };
        if !same_key(&key, &self.art_key) {
            self.art_key = key;
            self.has_art = false;
        }
        self.connected = true;
        self.paused = !(same(s.state.as_str(), "PLAYING") || same(
            s.state.as_str(),
            "BUFFERING",
        ));
        match &s.now.current {
            Some(t) => {
                self.ready = true;
                self.title = Title::Text(t.name.clone());
                self.line = Line::Track {
                    artist: t.artist.clone(),
                    album: t.album.clone(),
                    container: s.now.container.clone(),
                };
                self.can_seek = s.can_seek && t.duration_ms.is_some() && !s.member();
                self.progress = progress_now(s, t, 0);
            },
            None => {
                self.can_seek = false;
                if s.now.container.as_str().unicode_len() > 0 {
                    self.ready = true;
                    self.title = Title::Text(s.now.container.clone());
                    self.line = Line::Kind(s.now.container_type.clone());
                } else {
                    self.ready = false;
                    self.title = Title::Idle(s.player_name.clone());
                    self.line = Line::Blank;
                    self.progress = Progress::Blank;
                }
            },
        }
    }
}

/// A row of an open sheet.
#[derive(Debug)]
pub struct Choice {
    pub title: String,
    pub detail: String,
}

/// Whether a row has these texts.
pub open spec fn reads(row: Choice, title: Seq<char>, detail: Seq<char>) -> bool {
    row.title@ == title && row.detail@ == detail
}

/// How a switch reads.
pub open spec fn switch(on: bool) -> Seq<char> {
    if on {
        "On"@
    } else {
        "Off"@
    }
}

fn switch_text(on: bool) -> (r: String)
    ensures
        r@ == switch(on),
{
    if on {
        "On".to_owned()
    } else {
        "Off".to_owned()
    }
}

/// Whether rows are those of some sources.
pub open spec fn source_rows(sources: Seq<Source>, rows: Seq<Choice>) -> bool {
    &&& rows.len() == sources.len()
    &&& forall|i: int|
        0 <= i < rows.len() ==> reads(#[trigger] rows[i], sources[i].name@, sources[i].detail@)
}

/// The rows of some sources.
fn rows_of(sources: &Vec<Source>) -> (rows: Vec<Choice>)
    ensures
        source_rows(sources@, rows@),
{
    let mut rows: Vec<Choice> = Vec::new();
    let mut i: usize = 0;
    while i < sources.len()
        invariant
            i <= sources.len(),
            source_rows(sources@.take(i as int), rows@),
        decreases sources.len() - i,
    {
        rows.push(
            Choice { title: sources[i].name.clone(), detail: sources[i].detail.clone() },
        );
        i = i + 1;
    }
    assert(sources@.take(i as int) =~= sources@);
    rows
}

/// Whether rows are those of a sheet, where these sources are known.
pub open spec fn sheet_rows(sheet: Sheet, sources: Seq<Source>, rows: Seq<Choice>) -> bool {
    match sheet {
        Sheet::Blank => rows.len() == 0,
        Sheet::Sources => source_rows(sources, rows),
        Sheet::Former(former) => source_rows(former@, rows),
        Sheet::Modes(modes) => {
            &&& rows.len() == 3
            &&& reads(rows[0], "Shuffle"@, switch(modes.shuffle))
            &&& reads(
                rows[1],
                "Repeat"@,
                if modes.repeat_one {
                    "This track"@
                } else if modes.repeat {
                    "All"@
                } else {
                    "Off"@
                },
            )
            &&& reads(rows[2], "Crossfade"@, switch(modes.crossfade))
        },
        Sheet::Next(None) => rows.len() == 0,
        Sheet::Next(Some(next)) => rows.len() == 1 && reads(
            rows[0],
            next.name@,
            names(next.artist@, next.album@) + " · Press to skip to it"@,
        ),
    }
}

impl Controller {
    /// The controller with a sentence over its controls, for a while.
    pub open spec fn noticed(self, notice: Notice, now: u64) -> Controller {
        Controller {
            message_until: Some(later(now, NOTICE_MS)),
            screen: Screen { notice, ..self.screen },
            ..self
        }
    }

    /// Whether the speaker leads its group, as far as is known.
    pub open spec fn leads(self) -> bool {
        self.snapshot matches Some(s) && !s.spec_member()
    }

    /// Why playback is not commanded here: nothing is known of the speaker yet,
    /// or another leads it.
    pub open spec fn objection(self) -> Notice {
        match self.snapshot {
            None => Notice::StillConnecting,
            Some(s) => Notice::Problem(Problem::ControlledBy(s.coordinator_name)),
        }
    }

    /// The command that goes out: none while another is out.
    pub open spec fn order(self, op: Op) -> Option<Request> {
        if self.busy {
            None
        } else {
            Some(Request::Command(op))
        }
    }

    /// A command of playback, which goes out only to a speaker that leads.
    pub open spec fn playback(self, op: Op, now: u64) -> (Controller, Acted) {
        if self.leads() {
            (self, Acted { handled: true, focus: false, request: self.order(op) })
        } else {
            (
                self.noticed(self.objection(), now),
                Acted { handled: true, focus: false, request: None },
            )
        }
    }

    /// What a sheet lists.
    pub open spec fn sheet_of(self, panel: int) -> Sheet {
        if panel == 1 && self.sources@.len() > 0 {
            Sheet::Sources
        } else if panel == 2 {
            Sheet::Modes(self.modes())
        } else if panel == 3 {
            Sheet::Next(
                match self.snapshot {
                    Some(s) => s.now.next,
                    None => None,
                },
            )
        } else {
            Sheet::Blank
        }
    }

    /// The sentence on a sheet.
    pub open spec fn detail_of(self, panel: int) -> Detail {
        if panel == 1 && self.sources@.len() == 0 {
            Detail::FindingSources
        } else if panel == 2 && !self.leads() {
            Detail::CoordinatorsModes
        } else if panel == 3 && !(self.snapshot matches Some(s) && s.now.next is Some) {
            Detail::NothingQueued
        } else {
            Detail::Blank
        }
    }

    /// The group's play modes, all off while none are known.
    pub open spec fn modes(self) -> Modes {
        match self.snapshot {
            Some(s) => s.modes,
            None => Modes { shuffle: false, repeat: false, repeat_one: false, crossfade: false },
        }
    }

    /// The controller with a sheet open.
    pub open spec fn panelled(self, panel: i32) -> Controller {
        Controller {
            screen: Screen {
                panel,
                sheet: self.sheet_of(panel as int),
                detail: self.detail_of(panel as int),
                ..self.screen
            },
            ..self
        }
    }

    /// What goes out when a sheet opens: sources that are not known are asked
    /// for.
    pub open spec fn panel_order(self, panel: i32) -> Option<Request> {
        if panel == 1 && self.sources@.len() == 0 {
            self.order(Op::Sources)
        } else {
            None
        }
    }

    /// The controller with its sheet closed.
    pub open spec fn closed_sheet(self) -> Controller {
        Controller { screen: Screen { panel: 0, ..self.screen }, ..self }
    }

    /// What choosing a row of the open sheet does.
    pub open spec fn chosen(self, index: int, now: u64) -> (Controller, Acted) {
        let nothing = Acted { handled: true, focus: false, request: None };
        if self.screen.panel == 1 && index < self.sources@.len() {
            let source = self.sources@[index];
            if self.leads() {
                (
                    self.noticed(Notice::Starting(source.name), now).closed_sheet(),
                    Acted {
                        handled: true,
                        focus: true,
                        request: self.order(Op::Select { id: source.id, name: source.name }),
                    },
                )
            } else {
                (self.noticed(self.objection(), now), nothing)
            }
        } else if self.screen.panel == 2 {
            match mode_change(self.modes(), index) {
                Some(change) => self.playback(Op::Modes(change), now),
                None => (self, nothing),
            }
        } else if self.screen.panel == 3 {
            if self.leads() {
                (
                    self.closed_sheet(),
                    Acted { handled: true, focus: true, request: self.order(Op::Skip(true)) },
                )
            } else {
                (self.noticed(self.objection(), now), nothing)
            }
        } else {
            (self, nothing)
        }
    }

    /// What a key does. Its value is a double, by its bits.
    pub open spec fn pressed(self, key: Key, value: u64, repeat: bool, now: u64) -> (
        Controller,
        Acted,
    ) {
        let nothing = Acted { handled: true, focus: false, request: None };
        match key {
            Key::Back => if self.screen.panel != 0 {
                (self.closed_sheet(), Acted { focus: true, ..nothing })
            } else {
                (self, Acted { handled: false, ..nothing })
            },
            Key::Home => (self, Acted { handled: false, ..nothing }),
            Key::Retry => match self.target {
                Some(t) => (
                    Controller { snapshot: None, busy: false, ..self },
                    Acted {
                        request: Some(Request::Open { host: t.host, known_art: None }),
                        ..nothing
                    },
                ),
                None => (self, nothing),
            },
            Key::Play => self.playback(Op::PlayPause, now),
            Key::Next => if repeat {
                (self, nothing)
            } else {
                self.playback(Op::Skip(true), now)
            },
            Key::Previous => if repeat {
                (self, nothing)
            } else {
                self.playback(Op::Skip(false), now)
            },
            Key::ChapterStep => if repeat {
                (self, nothing)
            } else {
                self.playback(Op::Skip(is_positive(value)), now)
            },
            Key::Seek => match self.snapshot {
                Some(s) => match s.now.current {
                    Some(t) => match t.duration_ms {
                        Some(duration) => self.playback(
                            Op::Seek(seek_position(duration, value)),
                            now,
                        ),
                        None => (self, nothing),
                    },
                    None => (self, nothing),
                },
                None => (self, nothing),
            },
            Key::Volume => (
                self,
                Acted { request: self.order(Op::Volume(volume_delta(value) as i8)), ..nothing },
            ),
            Key::Mute => if repeat {
                (self, nothing)
            } else {
                (self, Acted { request: self.order(Op::ToggleMute), ..nothing })
            },
            Key::Panel(panel) => (
                self.panelled(panel),
                Acted { handled: true, focus: true, request: self.panel_order(panel) },
            ),
            Key::Choose => self.chosen(chosen_row(value), now),
            Key::Move { dx, dy } => if self.screen.group.ready {
                (
                    Controller {
                        selected: stepped(self.selected as int, dx as int, dy as int) as i32,
                        screen: Screen {
                            selected: stepped(
                                self.selected as int,
                                dx as int,
                                dy as int,
                            ) as i32,
                            ..self.screen
                        },
                        ..self
                    },
                    nothing,
                )
            } else {
                (self, nothing)
            },
            Key::Select => (self, nothing),
            Key::Other => (self, nothing),
        }
    }

    /// What an action does: a key of its own, or the selected control's.
    pub open spec fn acted(self, action: Seq<char>, value: u64, repeat: bool, now: u64) -> (
        Controller,
        Acted,
    ) {
        if key_of(action) is Select {
            self.pressed(control_key(self.selected as int), 0, false, now)
        } else {
            self.pressed(key_of(action), value, repeat, now)
        }
    }

    /// A controller whose screen is closed.
    pub fn new(now: u64) -> (r: Controller)
        ensures
            r.generation == 0,
            r.target is None,
            r.snapshot is None,
            r.at == now && r.tick_at == now && r.refresh_at == now,
            !r.busy,
            r.message_until is None,
            r.volume_until is None,
            r.sources@.len() == 0,
            r.screen.group == waiting(),
            r.screen.room matches RoomLine::Own(room) && room@.len() == 0,
            r.screen.panel == 0,
            r.screen.sheet is Blank,
            r.screen.detail is Blank,
            r.screen.notice is Blank,
            r.screen.volume is None,
            r.selected == 3,
            r.screen.selected == 3,
    {
        Controller {
            generation: 0,
            target: None,
            snapshot: None,
            at: now,
            tick_at: now,
            refresh_at: now,
            busy: false,
            message_until: None,
            volume_until: None,
            sources: Vec::new(),
            selected: 3,
            screen: Screen {
                group: waiting_now(),
                room: RoomLine::Own(String::new()),
                panel: 0,
                sheet: Sheet::Blank,
                detail: Detail::Blank,
                notice: Notice::Blank,
                volume: None,
                selected: 3,
            },
        }
    }

    /// Whether the screen is open.
    pub fn is_open(&self) -> (r: bool)
        ensures
            r == self.target is Some,
    {
        self.target.is_some()
    }

    /// Take the player screen over for a speaker. A screen that was left a
    /// moment ago comes back as it was while the group is read again.
    pub fn open(&mut self, target: Target, left: Option<Kept>, now: u64) -> (r: Request)
        ensures
            final(self).generation == wrapped(old(self).generation),
            final(self).target == Some(target),
            final(self).snapshot == (match left {
                Some(kept) => kept.screen.snapshot,
                None => None,
            }),
            final(self).at == (match left {
                Some(kept) => kept.at,
                None => old(self).at,
            }),
            final(self).tick_at == old(self).tick_at,
            final(self).refresh_at == later(now, REFRESH_MS),
            !final(self).busy,
            final(self).message_until is None,
            final(self).volume_until == old(self).volume_until,
            final(self).sources@.len() == 0,
            final(self).selected == 3,
            final(self).screen == (Screen {
                group: match left {
                    Some(kept) => kept.screen.group,
                    None => waiting(),
                },
                room: match left {
                    Some(kept) => kept.screen.room,
                    None => RoomLine::Own(target.room),
                },
                panel: 0,
                sheet: old(self).screen.sheet.outdated(old(self).sources),
                notice: Notice::Blank,
                selected: 3,
                ..old(self).screen
            }),
            r == (Request::Open {
                host: target.host,
                known_art: match left {
                    Some(kept) => kept.screen.group.art_key,
                    None => None,
                },
            }),
    {
        self.generation = next_generation(self.generation);
        self.snapshot = None;
        self.busy = false;
        self.know(Vec::new());
        self.selected = 3;
        self.screen.selected = 3;
        self.message_until = None;
        self.screen.panel = 0;
        self.screen.notice = Notice::Blank;
        self.refresh_at = later_than(now, REFRESH_MS);
        let host: u32 = target.host;
        let mut known_art: Option<String> = None;
        match left {
            Some(kept) => {
                known_art =
                match &kept.screen.group.art_key {
                    Some(url) => Some(url.clone()),
                    None => None,
                };
                self.screen.group = kept.screen.group;
                self.screen.room = kept.screen.room;
                self.snapshot = kept.screen.snapshot;
                self.at = kept.at;
            },
            None => {
                self.screen.group = waiting_now();
                self.screen.room = RoomLine::Own(target.room.clone());
            },
        }
        self.target = Some(target);
        Request::Open { host, known_art }
    }

    /// How handing the speaker's address to the worker went.
    pub fn opened(&mut self, room: bool, now: u64)
        ensures
            *final(self) == if room {
                *old(self)
            } else {
                old(self).noticed(Notice::BusyReopen, now)
            },
            !room ==> final(self).screen.notice is BusyReopen,
            room ==> final(self).screen == old(self).screen,
    {
        if !room {
            self.notice(Notice::BusyReopen, now);
        }
    }

    /// How handing a command to the worker went.
    pub fn commanded(&mut self, room: bool, now: u64)
        ensures
            *final(self) == if room {
                Controller { busy: true, ..*old(self) }
            } else {
                old(self).noticed(Notice::BusyRetry, now)
            },
            room ==> final(self).busy && final(self).screen == old(self).screen,
            !room ==> final(self).busy == old(self).busy && final(self).screen.notice is BusyRetry,
    {
        if room {
            self.busy = true;
        } else {
            self.notice(Notice::BusyRetry, now);
        }
    }

    /// The controller once its screen is left. What the screen said of the group
    /// stays, but for the artwork.
    pub open spec fn closed(self) -> Controller {
        Controller {
            generation: wrapped(self.generation),
            target: None,
            snapshot: None,
            busy: false,
            screen: Screen {
                group: Presentation { has_art: false, art_key: None, ..self.screen.group },
                notice: Notice::Blank,
                volume: None,
                selected: -1i32,
                ..self.screen
            },
            ..self
        }
    }

    /// What is worth keeping of a screen that is left.
    pub open spec fn leaving(self, shown: bool) -> Option<Left> {
        match self.target {
            Some(t) => if shown && self.screen.group.connected {
                Some(
                    Left {
                        device: t.device,
                        group: self.screen.group,
                        room: self.screen.room,
                        snapshot: self.snapshot,
                    },
                )
            } else {
                None
            },
            None => None,
        }
    }

    /// Leave the screen. What it showed is handed back where it is worth keeping.
    pub fn close(&mut self, shown: bool) -> (r: Option<Left>)
        ensures
            r == old(self).leaving(shown),
            *final(self) == old(self).closed(),
    {
        let group = self.screen.group.copy();
        let room = self.screen.room.copy();
        let snapshot = self.snapshot.take();
        let target = self.target.take();
        self.generation = next_generation(self.generation);
        self.busy = false;
        self.screen.group.has_art = false;
        self.screen.group.art_key = None;
        self.screen.notice = Notice::Blank;
        self.screen.volume = None;
        self.screen.selected = -1;
        match target {
            Some(t) => if shown && group.connected {
                Some(Left { device: t.device, group, room, snapshot })
            } else {
                None
            },
            None => None,
        }
    }

    /// Follow the screen: one that is no longer shown is closed. Says whether
    /// that was so; nothing else of the turn is then left to do.
    pub fn follow(&mut self, shown: bool) -> (r: bool)
        ensures
            r == (old(self).target is Some && !shown),
            *final(self) == if r {
                old(self).closed()
            } else {
                *old(self)
            },
    {
        if self.target.is_some() && !shown {
            self.close(false);
            true
        } else {
            false
        }
    }

    fn notice(&mut self, notice: Notice, now: u64)
        ensures
            *final(self) == old(self).noticed(notice, now),
    {
        self.screen.notice = notice;
        self.message_until = Some(later_than(now, NOTICE_MS));
    }

    /// Whether the speaker leads its group, as far as is known.
    pub fn coordinator(&self) -> (r: bool)
        ensures
            r == self.leads(),
    {
        match &self.snapshot {
            Some(s) => !s.member(),
            None => false,
        }
    }

    /// Whether a command of playback may go out now; if not, the screen says
    /// why.
    pub fn transport_allowed(&mut self, now: u64) -> (r: bool)
        ensures
            r == old(self).leads(),
            *final(self) == if r {
                *old(self)
            } else {
                old(self).noticed(old(self).objection(), now)
            },
    {
        if self.coordinator() {
            return true;
        }
        let objection = match &self.snapshot {
            None => Notice::StillConnecting,
            Some(s) => Notice::Problem(Problem::ControlledBy(s.coordinator_name.clone())),
        };
        self.notice(objection, now);
        false
    }

    fn send(&self, op: Op) -> (r: Option<Request>)
        ensures
            r == self.order(op),
    {
        if self.busy {
            None
        } else {
            Some(Request::Command(op))
        }
    }

    fn transport(&mut self, op: Op, now: u64) -> (r: Acted)
        ensures
            (*final(self), r) == old(self).playback(op, now),
    {
        let request = if self.transport_allowed(now) {
            self.send(op)
        } else {
            None
        };
        Acted { handled: true, focus: false, request }
    }

    fn group_modes(&self) -> (r: Modes)
        ensures
            r == self.modes(),
    {
        match &self.snapshot {
            Some(s) => s.modes,
            None => Modes { shuffle: false, repeat: false, repeat_one: false, crossfade: false },
        }
    }

    /// Other sources are known from now on. The sheet that was drawn keeps its rows.
    fn know(&mut self, sources: Vec<Source>)
        ensures
            *final(self) == (Controller {
                sources,
                screen: Screen {
                    sheet: old(self).screen.sheet.outdated(old(self).sources),
                    ..old(self).screen
                },
                ..*old(self)
            }),
    {
        let mut former = sources;
        std::mem::swap(&mut former, &mut self.sources);
        match &self.screen.sheet {
            Sheet::Sources => {
                self.screen.sheet = Sheet::Former(former);
            },
            _ => {},
        }
    }

    /// Open a sheet.
    pub fn panel(&mut self, panel: i32) -> (r: Option<Request>)
        ensures
            *final(self) == old(self).panelled(panel),
            r == old(self).panel_order(panel),
    {
        let mut request: Option<Request> = None;
        let mut sheet = Sheet::Blank;
        let mut detail = Detail::Blank;
        if panel == 1 {
            if self.sources.len() == 0 {
                detail = Detail::FindingSources;
                request = self.send(Op::Sources);
            } else {
                sheet = Sheet::Sources;
            }
        } else if panel == 2 {
            sheet = Sheet::Modes(self.group_modes());
            if !self.coordinator() {
                detail = Detail::CoordinatorsModes;
            }
        } else if panel == 3 {
            let next = match &self.snapshot {
                Some(s) => copy_track(&s.now.next),
                None => None,
            };
            if next.is_none() {
                detail = Detail::NothingQueued;
            }
            sheet = Sheet::Next(next);
        }
        self.screen.panel = panel;
        self.screen.sheet = sheet;
        self.screen.detail = detail;
        request
    }

    /// Choose a row of the open sheet.
    pub fn pick(&mut self, index: usize, now: u64) -> (r: Acted)
        ensures
            (*final(self), r) == old(self).chosen(index as int, now),
    {
        let mut acted = Acted { handled: true, focus: false, request: None };
        if self.screen.panel == 1 && index < self.sources.len() {
            if self.transport_allowed(now) {
                let name = self.sources[index].name.clone();
                let op = Op::Select {
                    id: self.sources[index].id.clone(),
                    name: self.sources[index].name.clone(),
                };
                acted.request = self.send(op);
                self.notice(Notice::Starting(name), now);
                self.screen.panel = 0;
                acted.focus = true;
            }
        } else if self.screen.panel == 2 {
            match chosen_mode(self.group_modes(), index) {
                Some(change) => {
                    return self.transport(Op::Modes(change), now);
                },
                None => {},
            }
        } else if self.screen.panel == 3 {
            if self.transport_allowed(now) {
                acted.request = self.send(Op::Skip(true));
                self.screen.panel = 0;
                acted.focus = true;
            }
        }
        acted
    }

    fn press(&mut self, key: Key, value: u64, repeat: bool, now: u64) -> (r: Acted)
        ensures
            (*final(self), r) == old(self).pressed(key, value, repeat, now),
    {
        let mut acted = Acted { handled: true, focus: false, request: None };
        match key {
            Key::Back => {
                if self.screen.panel != 0 {
                    self.screen.panel = 0;
                    acted.focus = true;
                } else {
                    acted.handled = false;
                }
            },
            Key::Home => {
                acted.handled = false;
            },
            Key::Retry => {
                let host: Option<u32> = match &self.target {
                    Some(t) => Some(t.host),
                    None => None,
                };
                match host {
                    Some(host) => {
                        self.snapshot = None;
                        self.busy = false;
                        acted.request = Some(Request::Open { host, known_art: None });
                    },
                    None => {},
                }
            },
            Key::Play => {
                return self.transport(Op::PlayPause, now);
            },
            Key::Next => {
                if !repeat {
                    return self.transport(Op::Skip(true), now);
                }
            },
            Key::Previous => {
                if !repeat {
                    return self.transport(Op::Skip(false), now);
                }
            },
            Key::ChapterStep => {
                if !repeat {
                    return self.transport(Op::Skip(positive(value)), now);
                }
            },
            Key::Seek => {
                let duration: Option<u64> = match &self.snapshot {
                    Some(s) => match &s.now.current {
                        Some(t) => t.duration_ms,
                        None => None,
                    },
                    None => None,
                };
                match duration {
                    Some(duration) => {
                        return self.transport(Op::Seek(percent_of(duration, value)), now);
                    },
                    None => {},
                }
            },
            Key::Volume => {
                acted.request = self.send(Op::Volume(volume_change(value)));
            },
            Key::Mute => {
                if !repeat {
                    acted.request = self.send(Op::ToggleMute);
                }
            },
            Key::Panel(panel) => {
                acted.request = self.panel(panel);
                acted.focus = true;
            },
            Key::Choose => {
                return self.pick(row_in(value), now);
            },
            Key::Move { dx, dy } => {
                if self.screen.group.ready {
                    self.selected = step(self.selected, dx, dy);
                    self.screen.selected = self.selected;
                }
            },
            Key::Select => {},
            Key::Other => {},
        }
        acted
    }

    /// An action from the screen or a physical key; its value is a double, by its
    /// bits.
    pub fn action(&mut self, action: &str, value: u64, repeat: bool, now: u64) -> (r: Acted)
        ensures
            (*final(self), r) == old(self).acted(action@, value, repeat, now),
    {
        let pressed = key(action);
        match pressed {
            Key::Select => {
                let selected: i32 = self.selected;
                let control = if selected == 1 || selected == 3 {
                    Key::Play
                } else if selected == 2 {
                    Key::Previous
                } else if selected == 4 {
                    Key::Next
                } else if 5 <= selected && selected <= 7 {
                    Key::Panel(selected - 4)
                } else {
                    Key::Other
                };
                self.press(control, 0, false, now)
            },
            _ => self.press(pressed, value, repeat, now),
        }
    }

    /// The rows of the sheet that was drawn last.
    pub fn choices(&self) -> (r: Vec<Choice>)
        ensures
            sheet_rows(self.screen.sheet, self.sources@, r@),
    {
        let mut rows: Vec<Choice> = Vec::new();
        match &self.screen.sheet {
            Sheet::Blank => {},
            Sheet::Sources => {
                return rows_of(&self.sources);
            },
            Sheet::Former(former) => {
                return rows_of(former);
            },
            Sheet::Modes(modes) => {
                rows.push(
                    Choice { title: "Shuffle".to_owned(), detail: switch_text(modes.shuffle) },
                );
                let repeat = if modes.repeat_one {
                    "This track".to_owned()
                } else if modes.repeat {
                    "All".to_owned()
                } else {
                    "Off".to_owned()
                };
                rows.push(Choice { title: "Repeat".to_owned(), detail: repeat });
                rows.push(
                    Choice { title: "Crossfade".to_owned(), detail: switch_text(modes.crossfade) },
                );
            },
            Sheet::Next(next) => match next {
                Some(next) => {
                    let mut detail = line(next.artist.as_str(), next.album.as_str());
                    detail.append(" · Press to skip to it");
                    rows.push(Choice { title: next.name.clone(), detail });
                },
                None => {},
            },
        }
        rows
    }

    /// Whether a read shows other tracks or modes than the last one.
    pub open spec fn differs(self, s: Snapshot) -> bool {
        match self.snapshot {
            Some(o) => !(both_alike(o.now.current, s.now.current) && both_alike(
                o.now.next,
                s.now.next,
            ) && o.modes == s.modes),
            None => true,
        }
    }

    /// The room line for a group that was read.
    pub open spec fn room_of(self, s: Snapshot) -> RoomLine {
        match self.target {
            Some(t) => if s.spec_member() {
                RoomLine::Member { room: t.room, coordinator: s.coordinator_name }
            } else {
                RoomLine::Own(t.room)
            },
            None => self.screen.room,
        }
    }

    /// The controller once a group has been read.
    pub open spec fn read(self, s: Snapshot, now: u64) -> Controller {
        Controller {
            at: now,
            snapshot: Some(s),
            screen: Screen {
                group: presented(self.screen.group, s),
                room: self.room_of(s),
                ..self.screen
            },
            ..self
        }
    }

    /// What an answer of this screen's speaker does, and whether focus goes
    /// back to the screen.
    pub open spec fn received(self, event: Event, now: u64) -> (Controller, bool) {
        let free = Controller { busy: false, ..self };
        match event {
            Event::State(Ok(s)) => {
                let panel = self.screen.panel;
                if self.differs(s) && (panel == 2 || panel == 3) {
                    (self.read(s, now).panelled(panel), true)
                } else {
                    (self.read(s, now), false)
                }
            },
            Event::State(Err(problem)) => (
                Controller {
                    snapshot: None,
                    screen: Screen {
                        group: Presentation {
                            ready: false,
                            connected: false,
                            has_art: false,
                            title: Title::Failed(problem),
                            art_key: None,
                            ..self.screen.group
                        },
                        ..self.screen
                    },
                    ..self
                },
                false,
            ),
            Event::Done(Ok(done)) => (
                match done {
                    Done::Quiet => free,
                    Done::Volume(volume) => Controller {
                        volume_until: Some(later(now, VOLUME_MS)),
                        screen: Screen { volume: Some(volume), ..self.screen },
                        ..free
                    },
                    Done::Muted => free.noticed(Notice::Muted, now),
                    Done::Unmuted => free.noticed(Notice::Unmuted, now),
                    Done::Playing(name) => free.noticed(Notice::Playing(name), now),
                },
                false,
            ),
            Event::Done(Err(problem)) => (free.noticed(Notice::Problem(problem), now), false),
            Event::Sources(Ok(sources)) => {
                let listed = Controller {
                    sources,
                    screen: Screen {
                        sheet: self.screen.sheet.outdated(self.sources),
                        ..self.screen
                    },
                    ..free
                };
                if self.screen.panel != 1 {
                    (listed, false)
                } else if sources@.len() == 0 {
                    (
                        Controller {
                            screen: Screen { detail: Detail::NoSources, ..listed.screen },
                            ..listed
                        },
                        false,
                    )
                } else {
                    (listed.panelled(1), true)
                }
            },
            Event::Sources(Err(problem)) => (
                if self.screen.panel == 1 {
                    Controller {
                        screen: Screen { detail: Detail::Problem(problem), ..self.screen },
                        ..free
                    }
                } else {
                    free
                },
                false,
            ),
            Event::Art { key, found } => (
                if key@ == key_text(self.screen.group.art_key) && found {
                    Controller {
                        screen: Screen {
                            group: Presentation { has_art: true, ..self.screen.group },
                            ..self.screen
                        },
                        ..self
                    }
                } else {
                    self
                },
                false,
            ),
        }
    }

    fn changed(&self, s: &Snapshot) -> (r: bool)
        ensures
            r == self.differs(*s),
    {
        match &self.snapshot {
            Some(o) => !(both_same(&o.now.current, &s.now.current) && both_same(
                &o.now.next,
                &s.now.next,
            ) && o.modes == s.modes),
            None => true,
        }
    }

    /// Take an answer from the worker. One for a screen that has been left
    /// changes nothing. Says whether focus goes back to the screen.
    pub fn receive(&mut self, generation: u64, event: Event, now: u64) -> (r: bool)
        ensures
            (*final(self), r) == if old(self).target is Some && generation
                == old(self).generation {
                old(self).received(event, now)
            } else {
                (*old(self), false)
            },
    {
        if self.target.is_none() || generation != self.generation {
            return false;
        }
        match event {
            Event::State(state) => match state {
                Ok(s) => {
                    let changed = self.changed(&s);
                    self.at = now;
                    self.screen.group.present(&s);
                    let room = match &self.target {
                        Some(t) => Some(
                            if s.member() {
                                RoomLine::Member {
                                    room: t.room.clone(),
                                    coordinator: s.coordinator_name.clone(),
                                }
                            } else {
                                RoomLine::Own(t.room.clone())
                            },
                        ),
                        None => None,
                    };
                    match room {
                        Some(room) => {
                            self.screen.room = room;
                        },
                        None => {},
                    }
                    let panel: i32 = self.screen.panel;
                    self.snapshot = Some(s);
                    if changed && (panel == 2 || panel == 3) {
                        let _ = self.panel(panel);
                        return true;
                    }
                },
                Err(problem) => {
                    self.snapshot = None;
                    self.screen.group.ready = false;
                    self.screen.group.connected = false;
                    self.screen.group.title = Title::Failed(problem);
                    self.screen.group.has_art = false;
                    self.screen.group.art_key = None;
                },
            },
            Event::Done(done) => {
                self.busy = false;
                match done {
                    Ok(done) => match done {
                        Done::Quiet => {},
                        Done::Volume(volume) => {
                            self.screen.volume = Some(volume);
                            self.volume_until = Some(later_than(now, VOLUME_MS));
                        },
                        Done::Muted => self.notice(Notice::Muted, now),
                        Done::Unmuted => self.notice(Notice::Unmuted, now),
                        Done::Playing(name) => self.notice(Notice::Playing(name), now),
                    },
                    Err(problem) => self.notice(Notice::Problem(problem), now),
                }
            },
            Event::Sources(found) => {
                self.busy = false;
                match found {
                    Ok(sources) => {
                        self.know(sources);
                        if self.screen.panel == 1 {
                            if self.sources.len() == 0 {
                                self.screen.detail = Detail::NoSources;
                            } else {
                                let _ = self.panel(1);
                                return true;
                            }
                        }
                    },
                    Err(problem) => {
                        if self.screen.panel == 1 {
                            self.screen.detail = Detail::Problem(problem);
                        }
                    },
                }
            },
            Event::Art { key, found } => {
                if same_key(&Some(key), &self.screen.group.art_key) && found {
                    self.screen.group.has_art = true;
                }
            },
        }
        false
    }

    /// The clock, a second on.
    pub open spec fn ticked(self, now: u64) -> Controller {
        if elapsed(now, self.tick_at) < TICK_MS {
            self
        } else {
            Controller {
                tick_at: now,
                screen: match self.snapshot {
                    Some(s) => match s.now.current {
                        Some(t) => Screen {
                            group: Presentation {
                                progress: progress_after(s, t, elapsed(now, self.at)),
                                ..self.screen.group
                            },
                            ..self.screen
                        },
                        None => self.screen,
                    },
                    None => self.screen,
                },
                ..self
            }
        }
    }

    /// What time does to the screen: the clock moves, a notice and the volume
    /// card go, and the group is read again.
    pub open spec fn passed(self, now: u64) -> Controller {
        let c = self.ticked(now);
        let over = c.message_until matches Some(t) && now >= t;
        let gone = c.volume_until matches Some(t) && now >= t;
        Controller {
            refresh_at: if now >= c.refresh_at {
                later(now, REFRESH_MS)
            } else {
                c.refresh_at
            },
            message_until: if over {
                None
            } else {
                c.message_until
            },
            volume_until: if gone {
                None
            } else {
                c.volume_until
            },
            screen: Screen {
                notice: if over {
                    Notice::Blank
                } else {
                    c.screen.notice
                },
                volume: if gone {
                    None
                } else {
                    c.screen.volume
                },
                ..c.screen
            },
            ..c
        }
    }

    /// Let time pass on an open screen. The group is read again only while no
    /// command is out.
    pub fn tick(&mut self, now: u64) -> (r: Option<Request>)
        ensures
            old(self).target is None ==> *final(self) == *old(self) && r is None,
            old(self).target is Some ==> {
                &&& *final(self) == old(self).passed(now)
                &&& r == if now >= old(self).refresh_at && !old(self).busy {
                    Some(Request::Refresh)
                } else {
                    None
                }
            },
    {
        if self.target.is_none() {
            return None;
        }
        if since(now, self.tick_at) >= TICK_MS {
            self.tick_at = now;
            let progress: Option<Progress> = match &self.snapshot {
                Some(s) => match &s.now.current {
                    Some(t) => Some(progress_now(s, t, since(now, self.at))),
                    None => None,
                },
                None => None,
            };
            match progress {
                Some(progress) => {
                    self.screen.group.progress = progress;
                },
                None => {},
            }
        }
        let mut request: Option<Request> = None;
        if now >= self.refresh_at {
            self.refresh_at = later_than(now, REFRESH_MS);
            if !self.busy {
                request = Some(Request::Refresh);
            }
        }
        match self.message_until {
            Some(t) => {
                if now >= t {
                    self.screen.notice = Notice::Blank;
                    self.message_until = None;
                }
            },
            None => {},
        }
        match self.volume_until {
            Some(t) => {
                if now >= t {
                    self.screen.volume = None;
                    self.volume_until = None;
                }
            },
            None => {},
        }
        request
    }

    /// What an answer of the worker does, and whether focus goes back to the
    /// screen: one for a screen that has been left does nothing.
    pub open spec fn heard(self, generation: u64, event: Event, now: u64) -> (Controller, bool) {
        if self.target is Some && generation == self.generation {
            self.received(event, now)
        } else {
            (self, false)
        }
    }

    /// What answers do, in their order, and whether focus goes back to the screen
    /// for one of them.
    pub open spec fn heard_all(self, events: Seq<(u64, Event)>, now: u64) -> (Controller, bool)
        decreases events.len(),
    {
        if events.len() == 0 {
            (self, false)
        } else {
            let (next, focus) = self.heard(events[0].0, events[0].1, now);
            let (last, later) = next.heard_all(events.subrange(1, events.len() as int), now);
            (last, focus || later)
        }
    }

    /// What a turn of the main loop does to the screen. One that is no longer
    /// shown is closed, and that is all; otherwise the answers come before the
    /// clock and the next read.
    pub open spec fn polled(self, shown: bool, events: Seq<(u64, Event)>, now: u64) -> (
        Controller,
        Polled,
    ) {
        if self.target is None {
            (self, Polled { request: None, focus: false })
        } else if !shown {
            (self.closed(), Polled { request: Some(Request::Close), focus: false })
        } else {
            let (answered, focus) = self.heard_all(events, now);
            (
                answered.passed(now),
                Polled {
                    request: if now >= answered.refresh_at && !answered.busy {
                        Some(Request::Refresh)
                    } else {
                        None
                    },
                    focus,
                },
            )
        }
    }

    /// A turn of the main loop, with the answers that have arrived.
    pub fn poll(&mut self, shown: bool, events: VecDeque<(u64, Event)>, now: u64) -> (r: Polled)
        ensures
            (*final(self), r) == old(self).polled(shown, events@, now),
    {
        if self.target.is_none() {
            return Polled { request: None, focus: false };
        }
        if self.follow(shown) {
            return Polled { request: Some(Request::Close), focus: false };
        }
        let mut events = events;
        let ghost all = events@;
        let mut focus = false;
        while events.len() > 0
            invariant
                self.target is Some,
                ({
                    let (last, later) = self.heard_all(events@, now);
                    (last, focus || later) == old(self).heard_all(all, now)
                }),
            decreases events@.len(),
        {
            match events.pop_front() {
                Some((generation, event)) => {
                    let back = self.receive(generation, event, now);
                    focus = focus || back;
                },
                None => {},
            }
        }
        let request = self.tick(now);
        Polled { request, focus }
    }
}

/// What a turn of the main loop comes to.
#[derive(Debug)]
pub struct Polled {
    /// What goes to the worker, with the controller's generation.
    pub request: Option<Request>,
    /// Whether focus goes back to the screen.
    pub focus: bool,
}

/// The rows of a sheet stay as they were drawn, whichever sources arrive, until
/// the sheet is drawn anew.
pub proof fn drawn_rows_stay(c: Controller, sources: Vec<Source>, now: u64, rows: Seq<Choice>)
    requires
        sheet_rows(c.screen.sheet, c.sources@, rows),
        c.screen.panel != 1 || sources@.len() == 0,
    ensures
        ({
            let next = c.received(Event::Sources(Ok(sources)), now).0;
            sheet_rows(next.screen.sheet, next.sources@, rows)
        }),
{
}

/// Whether a kept screen is recent enough to come back.
pub open spec fn recent(kept: Kept, now: u64) -> bool {
    elapsed(now, kept.at) < VIEW_TTL_MS
}

/// The kept screens, from the i-th on, that are recent and another device's.
pub open spec fn recent_from(views: Seq<Kept>, device: Option<Seq<char>>, now: u64, i: int) -> Seq<
    Kept,
>
    decreases views.len() - i,
{
    if i < 0 || i >= views.len() {
        Seq::empty()
    } else if recent(views[i], now) && Some(views[i].screen.device@) != device {
        seq![views[i]] + recent_from(views, device, now, i + 1)
    } else {
        recent_from(views, device, now, i + 1)
    }
}

/// The kept screens, from the i-th on, that are another device's.
pub open spec fn others_from(views: Seq<Kept>, device: Seq<char>, i: int) -> Seq<Kept>
    decreases views.len() - i,
{
    if i < 0 || i >= views.len() {
        Seq::empty()
    } else if views[i].screen.device@ != device {
        seq![views[i]] + others_from(views, device, i + 1)
    } else {
        others_from(views, device, i + 1)
    }
}

/// The kept screen of a device, from the i-th on.
pub open spec fn kept_from(views: Seq<Kept>, device: Seq<char>, i: int) -> Option<Kept>
    decreases views.len() - i,
{
    if i < 0 || i >= views.len() {
        None
    } else if views[i].screen.device@ == device {
        Some(views[i])
    } else {
        kept_from(views, device, i + 1)
    }
}

/// The device of a screen that was left, if one was.
pub open spec fn device_left(left: Option<Left>) -> Option<Seq<char>> {
    match left {
        Some(screen) => Some(screen.device@),
        None => None,
    }
}

/// The kept screens once one has been left, if one has.
pub open spec fn keeping(views: Seq<Kept>, left: Option<Left>, serial: u64, now: u64) -> Seq<Kept> {
    let recent = recent_from(views, device_left(left), now, 0);
    match left {
        Some(screen) => recent.push(Kept { at: now, serial, screen }),
        None => recent,
    }
}

/// The screen that comes back for a device: the one that is kept, where it is
/// recent and of the configuration that is in force.
pub open spec fn reopened(views: Seq<Kept>, device: Seq<char>, serial: u64, now: u64) -> Option<
    Kept,
> {
    match kept_from(views, device, 0) {
        Some(kept) => if recent(kept, now) && kept.serial == serial {
            Some(kept)
        } else {
            None
        },
        None => None,
    }
}

/// Recently closed screens, for an instant reopen.
#[derive(Debug)]
pub struct Views {
    pub views: Vec<Kept>,
}

impl Views {
    /// None yet.
    pub fn new() -> (r: Views)
        ensures
            r.views@.len() == 0,
    {
        Views { views: Vec::new() }
    }

    /// Keep a screen that was left, in place of an earlier one of its device,
    /// and drop those that are too old.
    pub fn keep(&mut self, left: Option<Left>, serial: u64, now: u64)
        ensures
            final(self).views@ == keeping(old(self).views@, left, serial, now),
    {
        let ghost before = self.views@;
        let ghost device = device_left(left);
        let mut out: Vec<Kept> = Vec::new();
        assert(self.views@ =~= before.take(before.len() as int));
        while self.views.len() > 0
            invariant
                self.views@.len() <= before.len(),
                self.views@ == before.take(self.views@.len() as int),
                out@ == recent_from(before, device, now, self.views@.len() as int),
                device == device_left(left),
            decreases self.views@.len(),
        {
            let ghost n = self.views@.len() as int;
            match self.views.pop() {
                Some(kept) => {
                    assert(kept == before[n - 1]);
                    assert(self.views@ =~= before.take(n - 1));
                    let other = match &left {
                        Some(screen) => !same(
                            screen.device.as_str(),
                            kept.screen.device.as_str(),
                        ),
                        None => true,
                    };
                    if other && since(now, kept.at) < VIEW_TTL_MS {
                        out.insert(0, kept);
                        assert(out@ =~= seq![before[n - 1]] + recent_from(before, device, now, n));
                    }
                },
                None => {},
            }
        }
        match left {
            Some(screen) => {
                out.push(Kept { at: now, serial, screen });
            },
            None => {},
        }
        self.views = out;
    }

    /// Take a device's screen out, where it is recent and of the configuration
    /// that is in force.
    pub fn take(&mut self, device: &str, serial: u64, now: u64) -> (r: Option<Kept>)
        ensures
            final(self).views@ == others_from(old(self).views@, device@, 0),
            r == reopened(old(self).views@, device@, serial, now),
    {
        let ghost before = self.views@;
        let mut out: Vec<Kept> = Vec::new();
        let mut found: Option<Kept> = None;
        assert(self.views@ =~= before.take(before.len() as int));
        while self.views.len() > 0
            invariant
                self.views@.len() <= before.len(),
                self.views@ == before.take(self.views@.len() as int),
                out@ == others_from(before, device@, self.views@.len() as int),
                found == kept_from(before, device@, self.views@.len() as int),
            decreases self.views@.len(),
        {
            let ghost n = self.views@.len() as int;
            match self.views.pop() {
                Some(kept) => {
                    assert(kept == before[n - 1]);
                    assert(self.views@ =~= before.take(n - 1));
                    if same(kept.screen.device.as_str(), device) {
                        found = Some(kept);
                    } else {
                        out.insert(0, kept);
                        assert(out@ =~= seq![before[n - 1]] + others_from(before, device@, n));
                    }
                },
                None => {},
            }
        }
        self.views = out;
        match found {
            Some(kept) => if since(now, kept.at) < VIEW_TTL_MS && kept.serial == serial {
                Some(kept)
            } else {
                None
            },
            None => None,
        }
    }
}

proof fn it_is_kept(views: Seq<Kept>, device: Seq<char>, now: u64, i: int, kept: Kept)
    requires
        kept.screen.device@ == device,
        0 <= i <= views.len(),
    ensures
        kept_from(
            recent_from(views, Some(device), now, i).push(kept),
            device,
            0,
        ) == Some(kept),
    decreases views.len() - i,
{
    let rest = recent_from(views, Some(device), now, i);
    none_of_its_own(views, device, now, i);
    last_is_found(rest, device, kept, 0);
}

proof fn none_of_its_own(views: Seq<Kept>, device: Seq<char>, now: u64, i: int)
    requires
        0 <= i <= views.len(),
    ensures
        forall|k: int|
            0 <= k < recent_from(views, Some(device), now, i).len() ==> (
            #[trigger] recent_from(views, Some(device), now, i)[k]).screen.device@ != device,
    decreases views.len() - i,
{
    if i < views.len() {
        none_of_its_own(views, device, now, i + 1);
        let tail = recent_from(views, Some(device), now, i + 1);
        assert forall|k: int|
            0 <= k < recent_from(views, Some(device), now, i).len() implies (
        #[trigger] recent_from(views, Some(device), now, i)[k]).screen.device@ != device by {
            if recent(views[i], now) && views[i].screen.device@ != device {
                if k > 0 {
                    assert(recent_from(views, Some(device), now, i)[k] == tail[k - 1]);
                }
            }
        }
    }
}

proof fn last_is_found(rest: Seq<Kept>, device: Seq<char>, kept: Kept, i: int)
    requires
        kept.screen.device@ == device,
        0 <= i <= rest.len(),
        forall|k: int| 0 <= k < rest.len() ==> (#[trigger] rest[k]).screen.device@ != device,
    ensures
        kept_from(rest.push(kept), device, i) == Some(kept),
    decreases rest.len() - i,
{
    if i < rest.len() {
        assert(rest.push(kept)[i] == rest[i]);
        last_is_found(rest, device, kept, i + 1);
    }
}

/// A screen that is reopened in time, under the same configuration, is the one
/// that was left, whatever was kept before it; later it is not.
pub proof fn a_screen_comes_back_as_it_was(
    views: Seq<Kept>,
    screen: Left,
    serial: u64,
    left_at: u64,
    now: u64,
)
    ensures
        reopened(keeping(views, Some(screen), serial, left_at), screen.device@, serial, now)
            == if elapsed(now, left_at) < VIEW_TTL_MS {
            Some(Kept { at: left_at, serial, screen })
        } else {
            None
        },
{
    it_is_kept(views, screen.device@, left_at, 0, Kept { at: left_at, serial, screen });
}

/// Whether a command is one of playback, which belongs to the speaker that
/// leads a group.
pub open spec fn of_playback(op: Op) -> bool {
    op is PlayPause || op is Skip || op is Seek || op is Select || op is Modes
}

/// A speaker that follows another is never told to play anything, whatever is
/// pressed: the screen says who leads instead.
pub proof fn a_member_commands_no_playback(
    c: Controller,
    action: Seq<char>,
    value: u64,
    repeat: bool,
    now: u64,
)
    requires
        !c.leads(),
    ensures
        c.acted(action, value, repeat, now).1.request matches Some(Request::Command(op)) ==> !of_playback(op),
{
}

/// While a command is out no other goes out, and nothing is read.
pub proof fn one_command_at_a_time(
    c: Controller,
    action: Seq<char>,
    value: u64,
    repeat: bool,
    now: u64,
)
    requires
        c.busy,
    ensures
        !(c.acted(action, value, repeat, now).1.request matches Some(Request::Command(_))),
{
}

/// Play modes after a change.
pub open spec fn with_change(modes: Modes, change: ModeChange) -> Modes {
    Modes {
        shuffle: match change.shuffle {
            Some(on) => on,
            None => modes.shuffle,
        },
        repeat: match change.repeat {
            Some(on) => on,
            None => modes.repeat,
        },
        repeat_one: match change.repeat_one {
            Some(on) => on,
            None => modes.repeat_one,
        },
        crossfade: match change.crossfade {
            Some(on) => on,
            None => modes.crossfade,
        },
    }
}

/// Choosing repeat goes from off to all, to this track, and off again, and
/// touches no other mode.
pub proof fn repeat_goes_round(off: Modes)
    requires
        !off.repeat && !off.repeat_one,
    ensures
        ({
            let all = with_change(off, mode_change(off, 1)->0);
            let one = with_change(all, mode_change(all, 1)->0);
            &&& all == Modes { repeat: true, ..off }
            &&& one == Modes { repeat: true, repeat_one: true, ..off }
            &&& with_change(one, mode_change(one, 1)->0) == off
        }),
{
}

/// Wherever it is, the D-pad moves to a control.
pub proof fn the_dpad_stays_on_the_controls(selected: int, dx: int, dy: int)
    ensures
        1 <= stepped(selected, dx, dy) <= 7,
{
}

/// Each word of the screen is the key that it names.
pub proof fn each_word_is_its_own_key()
    ensures
        key_of("back"@) == (Key::Back),
        key_of("Input.Back"@) == (Key::Back),
        key_of("Input.Home"@) == (Key::Home),
        key_of("retry"@) == (Key::Retry),
        key_of("play"@) == (Key::Play),
        key_of("next"@) == (Key::Next),
        key_of("previous"@) == (Key::Previous),
        key_of("chapter-step"@) == (Key::ChapterStep),
        key_of("seek"@) == (Key::Seek),
        key_of("volume"@) == (Key::Volume),
        key_of("mute"@) == (Key::Mute),
        key_of("chapters"@) == (Key::Panel(1)),
        key_of("Input.ContextMenu"@) == (Key::Panel(1)),
        key_of("audio"@) == (Key::Panel(2)),
        key_of("subtitles"@) == (Key::Panel(3)),
        key_of("choose"@) == (Key::Choose),
        key_of("Input.Up"@) == (Key::Move { dx: 0, dy: -1i32 }),
        key_of("Input.Down"@) == (Key::Move { dx: 0, dy: 1 }),
        key_of("Input.Left"@) == (Key::Move { dx: -1i32, dy: 0 }),
        key_of("Input.Right"@) == (Key::Move { dx: 1, dy: 0 }),
        key_of("Input.Select"@) == (Key::Select),
{
    reveal_strlit("back");
    reveal_strlit("Input.Back");
    reveal_strlit("Input.Home");
    reveal_strlit("retry");
    reveal_strlit("play");
    reveal_strlit("next");
    reveal_strlit("previous");
    reveal_strlit("chapter-step");
    reveal_strlit("seek");
    reveal_strlit("volume");
    reveal_strlit("mute");
    reveal_strlit("chapters");
    reveal_strlit("Input.ContextMenu");
    reveal_strlit("audio");
    reveal_strlit("subtitles");
    reveal_strlit("choose");
    reveal_strlit("Input.Up");
    reveal_strlit("Input.Down");
    reveal_strlit("Input.Left");
    reveal_strlit("Input.Right");
    reveal_strlit("Input.Select");
    assert("back"@.len() == 4 && "back"@[0] == 'b');
    assert("Input.Back"@.len() == 10 && "Input.Back"@[0] == 'I' && "Input.Back"@[6] == 'B');
    assert("Input.Home"@.len() == 10 && "Input.Home"@[0] == 'I' && "Input.Home"@[6] == 'H');
    assert("retry"@.len() == 5 && "retry"@[0] == 'r');
    assert("play"@.len() == 4 && "play"@[0] == 'p');
    assert("next"@.len() == 4 && "next"@[0] == 'n');
    assert("previous"@.len() == 8 && "previous"@[0] == 'p');
    assert("chapter-step"@.len() == 12 && "chapter-step"@[0] == 'c');
    assert("seek"@.len() == 4 && "seek"@[0] == 's');
    assert("volume"@.len() == 6 && "volume"@[0] == 'v');
    assert("mute"@.len() == 4 && "mute"@[0] == 'm');
    assert("chapters"@.len() == 8 && "chapters"@[0] == 'c');
    assert("Input.ContextMenu"@.len() == 17 && "Input.ContextMenu"@[0] == 'I' && "Input.ContextMenu"@[6] == 'C');
    assert("audio"@.len() == 5 && "audio"@[0] == 'a');
    assert("subtitles"@.len() == 9 && "subtitles"@[0] == 's');
    assert("choose"@.len() == 6 && "choose"@[0] == 'c');
    assert("Input.Up"@.len() == 8 && "Input.Up"@[0] == 'I' && "Input.Up"@[6] == 'U');
    assert("Input.Down"@.len() == 10 && "Input.Down"@[0] == 'I' && "Input.Down"@[6] == 'D');
    assert("Input.Left"@.len() == 10 && "Input.Left"@[0] == 'I' && "Input.Left"@[6] == 'L');
    assert("Input.Right"@.len() == 11 && "Input.Right"@[0] == 'I' && "Input.Right"@[6] == 'R');
    assert("Input.Select"@.len() == 12 && "Input.Select"@[0] == 'I' && "Input.Select"@[6] == 'S');
}

/// A transport key of a group's leader sends that command and no other, and OK on
/// a control sends what the control is for. A held skip is sent once.
pub proof fn a_transport_key_sends_its_own_command(c: Controller, value: u64, now: u64)
    requires
        c.leads(),
        !c.busy,
    ensures
        c.acted("play"@, value, false, now).1.request == Some(Request::Command(Op::PlayPause)),
        c.acted("next"@, value, false, now).1.request == Some(Request::Command(Op::Skip(true))),
        c.acted("previous"@, value, false, now).1.request == Some(
            Request::Command(Op::Skip(false)),
        ),
        c.acted("chapter-step"@, value, false, now).1.request == Some(
            Request::Command(Op::Skip(is_positive(value))),
        ),
        c.acted("next"@, value, true, now).1.request is None,
        c.acted("previous"@, value, true, now).1.request is None,
        c.acted("chapter-step"@, value, true, now).1.request is None,
        c.selected == 4 ==> c.acted("Input.Select"@, value, false, now).1.request == Some(
            Request::Command(Op::Skip(true)),
        ),
        c.selected == 2 ==> c.acted("Input.Select"@, value, false, now).1.request == Some(
            Request::Command(Op::Skip(false)),
        ),
        c.selected == 1 || c.selected == 3 ==> c.acted(
            "Input.Select"@,
            value,
            false,
            now,
        ).1.request == Some(Request::Command(Op::PlayPause)),
{
    each_word_is_its_own_key();
}

/// OK on a sheet's control opens that sheet, as its own key does.
pub proof fn ok_on_a_sheet_opens_it(c: Controller, value: u64, repeat: bool, now: u64)
    ensures
        c.selected == 5 ==> c.acted("Input.Select"@, value, repeat, now) == c.acted(
            "chapters"@,
            value,
            repeat,
            now,
        ),
        c.selected == 6 ==> c.acted("Input.Select"@, value, repeat, now) == c.acted(
            "audio"@,
            value,
            repeat,
            now,
        ),
        c.selected == 7 ==> c.acted("Input.Select"@, value, repeat, now) == c.acted(
            "subtitles"@,
            value,
            repeat,
            now,
        ),
        c.acted("chapters"@, value, repeat, now).0.screen.panel == 1,
        c.acted("Input.ContextMenu"@, value, repeat, now).0.screen.panel == 1,
        c.acted("audio"@, value, repeat, now).0.screen.panel == 2,
        c.acted("subtitles"@, value, repeat, now).0.screen.panel == 3,
{
    each_word_is_its_own_key();
}

/// The sound keys go to any speaker, one that follows another too: mute once for
/// each press, and a volume step of the size that was asked, held to twenty, or
/// of five where none was.
pub proof fn a_sound_key_goes_to_any_speaker(c: Controller, value: u64, repeat: bool, now: u64)
    requires
        !c.busy,
    ensures
        c.acted("mute"@, value, false, now).1.request == Some(Request::Command(Op::ToggleMute)),
        c.acted("mute"@, value, true, now).1.request is None,
        c.acted("volume"@, value, repeat, now).1.request matches Some(
            Request::Command(Op::Volume(by)),
        ) && {
            let asked = truncated(value);
            &&& asked == 0 ==> by == 5
            &&& -20 <= asked <= 20 && asked != 0 ==> by == asked
            &&& asked > 20 ==> by == 20
            &&& asked < -20 ==> by == -20
        },
        c.acted("mute"@, value, repeat, now).0 == c,
        c.acted("volume"@, value, repeat, now).0 == c,
{
    each_word_is_its_own_key();
}

/// A seek goes to a place of the track that plays, worked out from its own
/// length; without a length there is none.
pub proof fn a_seek_stays_on_the_track(c: Controller, value: u64, repeat: bool, now: u64)
    requires
        c.leads(),
        !c.busy,
    ensures
        match c.snapshot->0.now.current {
            Some(track) => match track.duration_ms {
                Some(length) => c.acted("seek"@, value, repeat, now).1.request matches Some(
                    Request::Command(Op::Seek(to)),
                ) && (percent_part(length as nat, value) <= u64::MAX ==> to == percent_part(
                    length as nat,
                    value,
                )),
                None => c.acted("seek"@, value, repeat, now).1.request is None,
            },
            None => c.acted("seek"@, value, repeat, now).1.request is None,
        },
{
    each_word_is_its_own_key();
}

/// Back closes an open sheet and leaves the screen where none is; home always
/// leaves it; and retry asks for the same speaker again.
pub proof fn back_closes_a_sheet_first(c: Controller, value: u64, repeat: bool, now: u64)
    ensures
        ({
            let (after, acted) = c.acted("back"@, value, repeat, now);
            &&& c.acted("Input.Back"@, value, repeat, now) == (after, acted)
            &&& acted.request is None
            &&& c.screen.panel != 0 ==> acted.handled && acted.focus && after.screen.panel == 0
            &&& c.screen.panel == 0 ==> !acted.handled && after == c
        }),
        !c.acted("Input.Home"@, value, repeat, now).1.handled,
        c.acted("Input.Home"@, value, repeat, now).0 == c,
        c.target matches Some(t) ==> {
            let (after, acted) = c.acted("retry"@, value, repeat, now);
            &&& acted.request matches Some(Request::Open { host, known_art })
            &&& host == t.host && known_art is None
            &&& after.snapshot is None && !after.busy && after.target == c.target
        },
{
    each_word_is_its_own_key();
}

/// The D-pad moves one control at a time: along the transport row and the sheets
/// row, down from the seek line to the transport and on to the sheet below, and
/// up again the same way.
pub proof fn the_dpad_moves_one_control(s: int)
    ensures
        2 <= s < 4 || 5 <= s < 7 ==> stepped(s, 1, 0) == s + 1,
        2 < s <= 4 || 5 < s <= 7 ==> stepped(s, -1, 0) == s - 1,
        stepped(4, 1, 0) == 4 && stepped(7, 1, 0) == 7,
        stepped(2, -1, 0) == 2 && stepped(5, -1, 0) == 5,
        2 <= s <= 4 ==> stepped(s, 0, 1) == s + 3 && stepped(s, 0, -1) == 1,
        5 <= s <= 7 ==> stepped(s, 0, -1) == s - 3 && stepped(s, 0, 1) == s,
        stepped(1, 0, 1) == 2 && stepped(1, 0, -1) == 1,
        stepped(1, 1, 0) == 1 && stepped(1, -1, 0) == 1,
{
}

/// An arrow moves the selection that way where there is something to control, and
/// what is drawn is what is selected.
pub proof fn an_arrow_moves_its_own_way(c: Controller, value: u64, repeat: bool, now: u64)
    requires
        1 <= c.selected <= 7,
    ensures
        ({
            let s = c.selected as int;
            let up = c.acted("Input.Up"@, value, repeat, now).0;
            let down = c.acted("Input.Down"@, value, repeat, now).0;
            let left = c.acted("Input.Left"@, value, repeat, now).0;
            let right = c.acted("Input.Right"@, value, repeat, now).0;
            if c.screen.group.ready {
                &&& up.selected == stepped(s, 0, -1) && up.screen.selected == up.selected
                &&& down.selected == stepped(s, 0, 1) && down.screen.selected == down.selected
                &&& left.selected == stepped(s, -1, 0) && left.screen.selected == left.selected
                &&& right.selected == stepped(s, 1, 0) && right.screen.selected == right.selected
            } else {
                up == c && down == c && left == c && right == c
            }
        }),
{
    each_word_is_its_own_key();
    the_dpad_stays_on_the_controls(c.selected as int, 0, -1);
    the_dpad_stays_on_the_controls(c.selected as int, 0, 1);
    the_dpad_stays_on_the_controls(c.selected as int, -1, 0);
    the_dpad_stays_on_the_controls(c.selected as int, 1, 0);
}

/// A row of the sources that is chosen starts that source and no other, says
/// which, and closes the sheet.
pub proof fn a_chosen_source_is_the_one_that_starts(c: Controller, value: u64, now: u64)
    requires
        c.screen.panel == 1,
        0 <= truncated(value) < c.sources@.len(),
        c.sources@.len() <= usize::MAX,
    ensures
        ({
            let source = c.sources@[truncated(value)];
            let (after, acted) = c.acted("choose"@, value, false, now);
            if !c.leads() {
                acted.request is None && after.screen.panel == 1
            } else {
                &&& after.screen.panel == 0 && acted.focus
                &&& after.screen.notice.spec_text() == "Starting "@ + source.name@ + "…"@
                &&& !c.busy ==> acted.request == Some(
                    Request::Command(Op::Select { id: source.id, name: source.name }),
                )
            }
        }),
{
    each_word_is_its_own_key();
}

/// A row of the play modes turns over that mode alone; the row of what is next
/// skips to it.
pub proof fn a_chosen_mode_is_turned_over(c: Controller, index: int, now: u64)
    requires
        c.leads(),
        !c.busy,
    ensures
        c.screen.panel == 2 && 0 <= index <= 2 ==> {
            let modes = c.snapshot->0.modes;
            &&& c.chosen(index, now).1.request matches Some(Request::Command(Op::Modes(change)))
            &&& index == 0 ==> with_change(modes, change) == (Modes {
                shuffle: !modes.shuffle,
                ..modes
            })
            &&& index == 2 ==> with_change(modes, change) == (Modes {
                crossfade: !modes.crossfade,
                ..modes
            })
            &&& index == 1 ==> with_change(modes, change).shuffle == modes.shuffle && with_change(
                modes,
                change,
            ).crossfade == modes.crossfade && with_change(modes, change) != modes
        },
        c.screen.panel == 2 && index > 2 ==> c.chosen(index, now).1.request is None,
        c.screen.panel == 3 ==> c.chosen(index, now).1.request == Some(
            Request::Command(Op::Skip(true)),
        ) && c.chosen(index, now).0.screen.panel == 0,
        c.screen.panel == 0 ==> c.chosen(index, now).1.request is None,
{
}

/// A sheet that opens lists what it is for: the sources that are known, which are
/// asked for where none are; the modes of the group; and what is queued next.
pub proof fn a_sheet_lists_what_it_is_for(c: Controller, rows: Seq<Choice>)
    ensures
        ({
            let sources = c.panelled(1).screen;
            &&& c.sources@.len() > 0 ==> (sheet_rows(sources.sheet, c.sources@, rows)
                <==> rows.len() == c.sources@.len() && forall|i: int|
                0 <= i < rows.len() ==> (#[trigger] rows[i]).title@ == c.sources@[i].name@
                    && rows[i].detail@ == c.sources@[i].detail@)
            &&& c.sources@.len() > 0 ==> sources.detail is Blank && c.panel_order(1) is None
            &&& c.sources@.len() == 0 ==> sources.detail is FindingSources && (sheet_rows(
                sources.sheet,
                c.sources@,
                rows,
            ) <==> rows.len() == 0)
            &&& c.sources@.len() == 0 && !c.busy ==> c.panel_order(1) == Some(
                Request::Command(Op::Sources),
            )
        }),
        ({
            let modes = c.panelled(2).screen;
            &&& c.panel_order(2) is None
            &&& modes.detail is CoordinatorsModes <==> !c.leads()
            &&& c.snapshot matches Some(s) ==> modes.sheet == Sheet::Modes(s.modes)
        }),
        ({
            let queued = c.panelled(3).screen;
            &&& c.panel_order(3) is None
            &&& match c.snapshot {
                Some(s) => queued.sheet == Sheet::Next(s.now.next) && (queued.detail is NothingQueued
                    <==> s.now.next is None),
                None => queued.sheet == Sheet::Next(None) && queued.detail is NothingQueued,
            }
        }),
{
}

/// The rows of the modes and of what is next say what they stand for.
pub proof fn a_row_says_what_it_stands_for(
    modes: Modes,
    next: Track,
    sources: Seq<Source>,
    rows: Seq<Choice>,
)
    ensures
        sheet_rows(Sheet::Modes(modes), sources, rows) ==> {
            &&& rows.len() == 3
            &&& rows[0].title@ == "Shuffle"@ && rows[0].detail@ == if modes.shuffle {
                "On"@
            } else {
                "Off"@
            }
            &&& rows[1].title@ == "Repeat"@
            &&& modes.repeat_one ==> rows[1].detail@ == "This track"@
            &&& !modes.repeat_one && modes.repeat ==> rows[1].detail@ == "All"@
            &&& !modes.repeat_one && !modes.repeat ==> rows[1].detail@ == "Off"@
            &&& rows[2].title@ == "Crossfade"@ && rows[2].detail@ == if modes.crossfade {
                "On"@
            } else {
                "Off"@
            }
        },
        sheet_rows(Sheet::Next(Some(next)), sources, rows) ==> rows.len() == 1 && rows[0].title@
            == next.name@ && rows[0].detail@ == names(next.artist@, next.album@)
            + " · Press to skip to it"@,
        sheet_rows(Sheet::Next(None), sources, rows) ==> rows.len() == 0,
{
}

/// What a group that was read shows: its track, or its container, or that it is
/// idle; that it is paused unless it plays or buffers; that it can be sought where
/// the track has a length and this speaker leads; and a track's own artwork.
pub proof fn a_group_is_shown_as_it_was_read(before: Presentation, s: Snapshot, track: Track)
    ensures
        ({
            let p = presented(before, s);
            &&& p.connected
            &&& p.paused <==> s.state@ != "PLAYING"@ && s.state@ != "BUFFERING"@
            &&& s.now.current == Some(track) ==> {
                &&& p.ready
                &&& p.title.spec_text() == track.name@
                &&& p.line == (Line::Track {
                    artist: track.artist,
                    album: track.album,
                    container: s.now.container,
                })
                &&& p.can_seek <==> s.can_seek && track.duration_ms is Some && !s.spec_member()
                &&& key_text(p.art_key) == track.image_url@
                &&& p.has_art ==> before.has_art && key_text(before.art_key) == track.image_url@
                &&& track.duration_ms is None ==> p.progress == (Progress::Live {
                    read_ms: s.position_ms,
                    moved_ms: 0,
                })
                &&& track.duration_ms matches Some(total) ==> p.progress == (Progress::Timed {
                    read_ms: s.position_ms,
                    moved_ms: 0,
                    total_ms: total,
                })
            }
            &&& s.now.current is None && s.now.container@.len() > 0 ==> {
                &&& p.ready && !p.can_seek
                &&& p.title.spec_text() == s.now.container@
                &&& p.line == Line::Kind(s.now.container_type)
            }
            &&& s.now.current is None && s.now.container@.len() == 0 ==> {
                &&& !p.ready && !p.can_seek
                &&& p.title.spec_text() == s.player_name@
                    + " is idle.\nPress Sources to play something."@
                &&& p.line.spec_text() == ""@
                &&& p.progress is Blank
            }
        }),
{
}

/// The line under the title: artist and album, else the container; a container
/// alone by its kind.
pub proof fn the_line_names_artist_and_album(artist: String, album: String, container: String)
    ensures
        ({
            let line = Line::Track { artist, album, container }.spec_text();
            &&& names(artist@, album@).len() > 0 ==> line == names(artist@, album@)
            &&& names(artist@, album@).len() == 0 ==> line == container@
        }),
        Line::Blank.spec_text() == ""@,
{
}

/// What the worker's answers do to the screen: a read is taken as it came; a read
/// that failed is said and what was known is let go; and the room line names the
/// coordinator of a speaker that follows one.
pub proof fn a_read_is_taken_as_it_came(c: Controller, s: Snapshot, problem: Problem, now: u64)
    ensures
        ({
            let next = c.received(Event::State(Ok(s)), now).0;
            &&& next.snapshot == Some(s) && next.at == now
            &&& next.screen.group == presented(c.screen.group, s)
            &&& next.busy == c.busy && next.sources == c.sources && next.screen.panel
                == c.screen.panel
            &&& c.target matches Some(t) ==> if s.spec_member() {
                next.screen.room == (RoomLine::Member {
                    room: t.room,
                    coordinator: s.coordinator_name,
                })
            } else {
                next.screen.room == RoomLine::Own(t.room)
            }
        }),
        ({
            let next = c.received(Event::State(Err(problem)), now).0;
            &&& next.snapshot is None
            &&& !next.screen.group.ready && !next.screen.group.connected
                && !next.screen.group.has_art && next.screen.group.art_key is None
            &&& next.screen.group.title.spec_text() == problem.spec_text()
            &&& next.busy == c.busy && next.target == c.target
        }),
{
}

/// A command that is over frees the worker, and what came of it is said for four
/// seconds; a volume is shown on its card for one and a half.
pub proof fn what_came_of_a_command_is_said(
    c: Controller,
    problem: Problem,
    volume: u8,
    name: String,
    now: u64,
)
    requires
        now <= 0x7fff_ffff_ffff_ffff,
    ensures
        ({
            let quiet = c.received(Event::Done(Ok(Done::Quiet)), now).0;
            let loud = c.received(Event::Done(Ok(Done::Volume(volume))), now).0;
            let muted = c.received(Event::Done(Ok(Done::Muted)), now).0;
            let unmuted = c.received(Event::Done(Ok(Done::Unmuted)), now).0;
            let playing = c.received(Event::Done(Ok(Done::Playing(name))), now).0;
            let failed = c.received(Event::Done(Err(problem)), now).0;
            &&& !quiet.busy && !loud.busy && !muted.busy && !unmuted.busy && !playing.busy
                && !failed.busy
            &&& quiet.screen == c.screen
            &&& loud.screen.volume == Some(volume) && loud.volume_until == Some((now + 1500) as u64)
            &&& loud.screen.notice == c.screen.notice
            &&& muted.screen.notice.spec_text() == "Muted"@
            &&& unmuted.screen.notice.spec_text() == "Unmuted"@
            &&& playing.screen.notice.spec_text() == "Playing "@ + name@
            &&& failed.screen.notice.spec_text() == problem.spec_text()
            &&& muted.message_until == Some((now + 4000) as u64)
            &&& failed.message_until == muted.message_until && playing.message_until
                == muted.message_until && unmuted.message_until == muted.message_until
        }),
{
}

/// Sources that arrive are known from then on; they are listed at once where their
/// sheet is open, and none, or a failure, is said there.
pub proof fn sources_that_arrive_are_known(
    c: Controller,
    sources: Vec<Source>,
    problem: Problem,
    now: u64,
)
    ensures
        ({
            let (next, focus) = c.received(Event::Sources(Ok(sources)), now);
            &&& next.sources == sources && !next.busy
            &&& focus <==> c.screen.panel == 1 && sources@.len() > 0
            &&& c.screen.panel == 1 && sources@.len() > 0 ==> next.screen.sheet is Sources
                && next.screen.detail is Blank
            &&& c.screen.panel == 1 && sources@.len() == 0 ==> next.screen.detail is NoSources
            &&& c.screen.panel != 1 ==> next.screen.detail == c.screen.detail
        }),
        ({
            let (next, focus) = c.received(Event::Sources(Err(problem)), now);
            &&& !next.busy && !focus && next.sources == c.sources
            &&& c.screen.panel == 1 ==> next.screen.detail == Detail::Problem(problem)
            &&& c.screen.panel != 1 ==> next.screen == c.screen
        }),
{
}

/// Artwork is shown where it could be read and is that of the track on the screen.
pub proof fn artwork_is_that_of_the_track(c: Controller, key: String, found: bool, now: u64)
    ensures
        ({
            let next = c.received(Event::Art { key, found }, now).0;
            &&& found && key@ == key_text(c.screen.group.art_key) ==> next.screen.group.has_art
            &&& !found || key@ != key_text(c.screen.group.art_key) ==> next == c
            &&& next.screen.group.title == c.screen.group.title && next.snapshot == c.snapshot
        }),
{
}

/// An answer for a screen that has been left changes nothing, and one for the
/// screen that is up is taken.
pub proof fn a_stale_answer_changes_nothing(
    c: Controller,
    generation: u64,
    event: Event,
    now: u64,
)
    ensures
        generation != c.generation || c.target is None ==> c.heard(generation, event, now) == (
            c,
            false,
        ),
        generation == c.generation && c.target is Some ==> c.heard(generation, event, now)
            == c.received(event, now),
        c.closed().generation != c.generation && c.closed().target is None,
{
}

/// The clock moves once a second, and only while the group plays; the group is
/// read again every three seconds, but not while a command is out; and a notice or
/// a volume card goes when its time is over, and no sooner.
pub proof fn time_moves_the_clock_and_takes_cards_down(c: Controller, now: u64)
    requires
        c.target is Some,
        now <= 0x7fff_ffff_ffff_ffff,
    ensures
        ({
            let after = c.passed(now);
            let (_, polled) = c.polled(true, Seq::empty(), now);
            &&& polled.request == if now >= c.refresh_at && !c.busy {
                Some(Request::Refresh)
            } else {
                None
            }
            &&& now >= c.refresh_at ==> after.refresh_at == now + 3000
            &&& now < c.refresh_at ==> after.refresh_at == c.refresh_at
            &&& c.message_until matches Some(t) ==> if now >= t {
                after.screen.notice is Blank && after.message_until is None
            } else {
                after.screen.notice == c.screen.notice && after.message_until == Some(t)
            }
            &&& c.volume_until matches Some(t) ==> if now >= t {
                after.screen.volume is None && after.volume_until is None
            } else {
                after.screen.volume == c.screen.volume && after.volume_until == Some(t)
            }
            &&& c.tick_at <= now < c.tick_at + 1000 ==> after.screen.group == c.screen.group
            &&& after.snapshot == c.snapshot && after.busy == c.busy && after.sources == c.sources
        }),
        c.snapshot matches Some(s) ==> (s.now.current matches Some(t) ==> (now >= c.tick_at + 1000
            && now >= c.at ==> {
            let shown = c.passed(now).screen.group.progress;
            let moved = if s.state@ == "PLAYING"@ {
                (now - c.at) as u64
            } else {
                0
            };
            match t.duration_ms {
                Some(total_ms) => shown == (Progress::Timed {
                    read_ms: s.position_ms,
                    moved_ms: moved,
                    total_ms,
                }),
                None => shown == (Progress::Live { read_ms: s.position_ms, moved_ms: moved }),
            }
        })),
{
}

/// A screen that is no longer shown is closed, and its worker is told; without a
/// speaker there is nothing to do.
pub proof fn a_screen_that_is_not_shown_is_closed(
    c: Controller,
    events: Seq<(u64, Event)>,
    now: u64,
)
    ensures
        c.target is Some ==> {
            let (after, polled) = c.polled(false, events, now);
            &&& polled.request == Some(Request::Close) && !polled.focus
            &&& after.target is None && after.snapshot is None && !after.busy
            &&& !after.screen.group.has_art && after.screen.group.art_key is None
            &&& after.screen.group.title == c.screen.group.title && after.screen.room
                == c.screen.room
            &&& after.screen.notice is Blank && after.screen.volume is None
            &&& after.screen.selected == -1 && after.selected == c.selected
        },
        c.target is None ==> c.polled(false, events, now).0 == c && c.polled(
            false,
            events,
            now,
        ).1.request is None,
{
}

/// A screen is kept when it is left while it shows a group, and with what it
/// showed.
pub proof fn a_screen_is_kept_as_it_was_left(c: Controller, shown: bool)
    ensures
        match c.leaving(shown) {
            Some(left) => {
                &&& shown && c.screen.group.connected && c.target is Some
                &&& left.device == c.target->0.device
                &&& left.group == c.screen.group && left.room == c.screen.room
                &&& left.snapshot == c.snapshot
            },
            None => !shown || !c.screen.group.connected || c.target is None,
        },
{
}

/// A kept screen comes back only for its own speaker, within half a minute, and
/// under the configuration that it was left under.
pub proof fn a_kept_screen_is_its_own_speakers(
    views: Seq<Kept>,
    device: Seq<char>,
    serial: u64,
    now: u64,
)
    ensures
        reopened(views, device, serial, now) matches Some(kept) ==> {
            &&& kept.screen.device@ == device
            &&& kept.serial == serial
            &&& now < kept.at + 30000
            &&& views.contains(kept)
        },
{
    a_kept_screen_is_found(views, device, 0);
}

proof fn a_kept_screen_is_found(views: Seq<Kept>, device: Seq<char>, i: int)
    requires
        0 <= i,
    ensures
        kept_from(views, device, i) matches Some(kept) ==> kept.screen.device@ == device
            && views.contains(kept),
    decreases views.len() - i,
{
    if i < views.len() && views[i].screen.device@ != device {
        a_kept_screen_is_found(views, device, i + 1);
    }
}

/// Leaving a screen keeps no second one of that speaker, and nothing that is older
/// than half a minute.
pub proof fn one_screen_is_kept_for_a_speaker(views: Seq<Kept>, device: Seq<char>, now: u64, k: int)
    ensures
        ({
            let left = recent_from(views, Some(device), now, 0);
            0 <= k < left.len() ==> left[k].screen.device@ != device && now < left[k].at + 30000
        }),
        ({
            let left = others_from(views, device, 0);
            0 <= k < left.len() ==> left[k].screen.device@ != device
        }),
{
    recent_ones_are_recent(views, device, now, 0);
    others_are_others(views, device, 0);
}

proof fn recent_ones_are_recent(views: Seq<Kept>, device: Seq<char>, now: u64, i: int)
    requires
        0 <= i,
    ensures
        forall|k: int|
            0 <= k < recent_from(views, Some(device), now, i).len() ==> (#[trigger] recent_from(
                views,
                Some(device),
                now,
                i,
            )[k]).screen.device@ != device && now < recent_from(views, Some(device), now, i)[k].at
                + 30000,
    decreases views.len() - i,
{
    if i < views.len() {
        recent_ones_are_recent(views, device, now, i + 1);
        let rest = recent_from(views, Some(device), now, i + 1);
        let all = recent_from(views, Some(device), now, i);
        if recent(views[i], now) && Some(views[i].screen.device@) != Some(device) {
            assert(all =~= seq![views[i]] + rest);
            assert forall|k: int| 0 <= k < all.len() implies (
            #[trigger] all[k]).screen.device@ != device && now < all[k].at + 30000 by {
                if k > 0 {
                    assert(all[k] == rest[k - 1]);
                }
            }
        }
    }
}

proof fn others_are_others(views: Seq<Kept>, device: Seq<char>, i: int)
    requires
        0 <= i,
    ensures
        forall|k: int|
            0 <= k < others_from(views, device, i).len() ==> (#[trigger] others_from(
                views,
                device,
                i,
            )[k]).screen.device@ != device,
    decreases views.len() - i,
{
    if i < views.len() {
        others_are_others(views, device, i + 1);
        let rest = others_from(views, device, i + 1);
        let all = others_from(views, device, i);
        if views[i].screen.device@ != device {
            assert(all =~= seq![views[i]] + rest);
            assert forall|k: int| 0 <= k < all.len() implies (#[trigger] all[k]).screen.device@
                != device by {
                if k > 0 {
                    assert(all[k] == rest[k - 1]);
                }
            }
        }
    }
}

/// A speaker that follows another, or is not connected yet, says why it does not
/// play.
pub proof fn a_member_says_whom_to_ask(c: Controller, now: u64)
    ensures
        ({
            let after = c.acted("play"@, 0, false, now).0;
            &&& c.snapshot is None ==> after.screen.notice.spec_text()
                == "Still connecting to the speaker."@
            &&& c.snapshot matches Some(s) ==> (s.spec_member() ==> after.screen.notice
                == Notice::Problem(Problem::ControlledBy(s.coordinator_name)))
        }),
{
    each_word_is_its_own_key();
}

/// The words of the screen's other notices and of its sheets.
pub proof fn the_screens_words(name: String)
    ensures
        Notice::BusyReopen.spec_text() == "Connection busy. Reopen the speaker."@,
        Notice::BusyRetry.spec_text() == "Connection busy. Try again."@,
        Notice::Blank.spec_text() == ""@,
        Title::Connecting.spec_text() == "Connecting to Sonos…"@,
        Title::Text(name).spec_text() == name@,
        Detail::Blank.spec_text() == ""@,
        Detail::FindingSources.spec_text() == "Finding sources…"@,
        Detail::NoSources.spec_text()
            == "No sources: add favourites or playlists in the Sonos app."@,
        Detail::CoordinatorsModes.spec_text() == "Play modes belong to the group's coordinator."@,
        Detail::NothingQueued.spec_text() == "Nothing is queued after this."@,
{
}

/// The line of the room, and whom a speaker that follows another plays from.
pub proof fn the_room_line_names_the_coordinator(room: String, coordinator: String)
    ensures
        RoomLine::Own(room).spec_text() == room@,
        (RoomLine::Member { room, coordinator }).spec_text() == room@ + " · Playing from "@
            + coordinator@,
{
}

/// A time in whole seconds is that many seconds.
proof fn whole_seconds_are_exact(k: nat)
    requires
        k < 0x100_0000_0000,
    ensures
        thousandths(1000 * k) == k * pow2(1074),
        seconds(1000 * k) == k * pow2(1074),
        rounded(k * pow2(1074), 53) == k * pow2(1074),
{
    lemma_pow2_pos(1074);
    lemma2_to64();
    vstd::arithmetic::power2::lemma2_to64_rest();
    crate::rounding::short_numbers_are_kept(k, 53);
    crate::rounding::short_numbers_are_kept(1000 * k, 53);
    crate::rounding::scaling_keeps_a_number(k, 53, 1074);
    let x = k * pow2(1074);
    assert((1000 * k) * pow2(1074) == x * 1000) by (nonlinear_arith)
        requires
            x == k * pow2(1074),
    ;
    assert((x * 1000) / 1000 == x);
    let last = crate::rounding::place(crate::rounding::length(x), 53);
    if crate::rounding::length(x) > 53 {
        lemma_pow2_pos((crate::rounding::length(x) - 53) as nat);
    }
    crate::rounding::scaling_keeps_the_nearest(x, last, 1000);
    assert(1000 * last == last * 1000);
    assert(x / 1 == x);
    assert(1 * last == last);
    assert((1000 * k) / 1000 == k && (1000 * k) % 1000 == 0);
    assert(0 * 1_000_000 * pow2(1074) == 0) by (nonlinear_arith);
    crate::rounding::nothing_is_kept(1_000_000_000, 53);
}

/// The clock adds what has passed to what was read, second by second, and stops at
/// the end of the track; what is left is the rest.
pub proof fn the_clock_adds_up(read: nat, moved: nat, total: nat)
    requires
        read < 0x80_0000_0000,
        moved < 0x80_0000_0000,
        total < 0x100_0000_0000,
    ensures
        ({
            let read_ms = (1000 * read) as u64;
            let moved_ms = (1000 * moved) as u64;
            let total_ms = (1000 * total) as u64;
            let timed = Progress::Timed { read_ms, moved_ms, total_ms };
            &&& (Progress::Live { read_ms, moved_ms }).spec_elapsed() == read + moved
            &&& read + moved <= total ==> timed.spec_elapsed() == read + moved && timed.spec_left()
                == total - (read + moved)
            &&& read + moved > total ==> timed.spec_elapsed() == total && timed.spec_left() == 0
        }),
{
    lemma_pow2_pos(1074);
    let p = pow2(1074);
    whole_seconds_are_exact(read);
    whole_seconds_are_exact(moved);
    whole_seconds_are_exact(total);
    whole_seconds_are_exact(read + moved);
    assert(read * p + moved * p == (read + moved) * p) by (nonlinear_arith);
    assert(forall|k: nat| (#[trigger] (k * p)) / p == k) by (nonlinear_arith)
        requires
            p > 0,
    ;
    let at = read + moved;
    if at < total {
        assert(at * p < total * p) by (nonlinear_arith)
            requires
                at < total,
                p > 0,
        ;
        assert(total * p - at * p == (total - at) * p) by (nonlinear_arith);
        whole_seconds_are_exact((total - at) as nat);
    } else {
        assert(total * p <= at * p) by (nonlinear_arith)
            requires
                total <= at,
                p > 0,
        ;
        whole_seconds_are_exact(0);
        assert(total * p - total * p == 0 * p) by (nonlinear_arith);
    }
}

/// Playback belongs to the speaker that leads: it is sent the command, and the
/// screen of any other says why nothing is sent. Neither moves the focus.
pub proof fn playback_belongs_to_the_leader(c: Controller, op: Op, now: u64)
    ensures
        c.playback(op, now).1.handled && !c.playback(op, now).1.focus,
        c.leads() ==> c.playback(op, now).0 == c && c.playback(op, now).1.request == c.order(op),
        !c.leads() ==> c.playback(op, now).1.request is None && c.playback(
            op,
            now,
        ).0.screen.notice == c.objection(),
        !c.leads() && now <= 0x7fff_ffff ==> c.playback(op, now).0.message_until == Some(
            (now + 4000) as u64,
        ),
{
}

} // verus!
