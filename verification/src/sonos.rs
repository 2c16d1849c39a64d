//! What a Sonos speaker reports, and the words that the screens have for it.
use crate::text::{decimal, number, padded, same, two_digits};
use vstd::prelude::*;

verus! {

/// How often a group is read after a skip, at most.
pub const SKIP_READS: u8 = 6;

/// How long to wait between two of those reads, in milliseconds.
pub const SKIP_PAUSE_MS: u64 = 200;

/// A track.
#[derive(Debug)]
pub struct Track {
    pub name: String,
    pub artist: String,
    pub album: String,
    pub image_url: String,
    pub duration_ms: Option<u64>,
    pub service: String,
}

impl Track {
    /// The same track once more.
    pub fn copy(&self) -> (r: Track)
        ensures
            r == *self,
    {
        Track {
            name: self.name.clone(),
            artist: self.artist.clone(),
            album: self.album.clone(),
            image_url: self.image_url.clone(),
            duration_ms: self.duration_ms,
            service: self.service.clone(),
        }
    }

    /// Whether two tracks are told apart by nothing.
    pub open spec fn alike(self, other: Track) -> bool {
        &&& self.name@ == other.name@
        &&& self.artist@ == other.artist@
        &&& self.album@ == other.album@
        &&& self.image_url@ == other.image_url@
        &&& self.duration_ms == other.duration_ms
        &&& self.service@ == other.service@
    }

    /// Whether two tracks are told apart by nothing.
    pub fn same_as(&self, other: &Track) -> (r: bool)
        ensures
            r == self.alike(*other),
    {
        same(self.name.as_str(), other.name.as_str()) && same(
            self.artist.as_str(),
            other.artist.as_str(),
        ) && same(self.album.as_str(), other.album.as_str()) && same(
            self.image_url.as_str(),
            other.image_url.as_str(),
        ) && same_length(self.duration_ms, other.duration_ms) && same(
            self.service.as_str(),
            other.service.as_str(),
        )
    }
}

fn same_length(a: Option<u64>, b: Option<u64>) -> (r: bool)
    ensures
        r == (a == b),
{
    match (a, b) {
        (Some(a), Some(b)) => a == b,
        (None, None) => true,
        _ => false,
    }
}

/// A track, if there is one, once more.
pub fn copy_track(track: &Option<Track>) -> (r: Option<Track>)
    ensures
        r == *track,
{
    match track {
        Some(t) => Some(t.copy()),
        None => None,
    }
}

/// Whether two tracks that may be missing are told apart by nothing.
pub open spec fn both_alike(a: Option<Track>, b: Option<Track>) -> bool {
    match (a, b) {
        (Some(a), Some(b)) => a.alike(b),
        (None, None) => true,
        _ => false,
    }
}

/// Whether two tracks that may be missing are told apart by nothing.
pub fn both_same(a: &Option<Track>, b: &Option<Track>) -> (r: bool)
    ensures
        r == both_alike(*a, *b),
{
    match (a, b) {
        (Some(a), Some(b)) => a.same_as(b),
        (None, None) => true,
        _ => false,
    }
}

/// What a group plays from, plays, and plays next.
#[derive(Debug)]
pub struct NowPlaying {
    pub container: String,
    pub container_type: String,
    pub current: Option<Track>,
    pub next: Option<Track>,
}

impl NowPlaying {
    /// The same once more.
    pub fn copy(&self) -> (r: NowPlaying)
        ensures
            r == *self,
    {
        NowPlaying {
            container: self.container.clone(),
            container_type: self.container_type.clone(),
            current: copy_track(&self.current),
            next: copy_track(&self.next),
        }
    }
}

/// A group's play modes.
#[derive(Clone, Copy, PartialEq, Eq, Structural, Debug)]
pub struct Modes {
    pub shuffle: bool,
    pub repeat: bool,
    pub repeat_one: bool,
    pub crossfade: bool,
}

impl Default for Modes {
    fn default() -> (r: Modes)
        ensures
            r == (Modes { shuffle: false, repeat: false, repeat_one: false, crossfade: false }),
    {
        Modes { shuffle: false, repeat: false, repeat_one: false, crossfade: false }
    }
}

/// Which play modes to change, and to what.
#[derive(Clone, Copy, PartialEq, Eq, Structural, Debug)]
pub struct ModeChange {
    pub shuffle: Option<bool>,
    pub repeat: Option<bool>,
    pub repeat_one: Option<bool>,
    pub crossfade: Option<bool>,
}

/// One read of a speaker and its group.
#[derive(Debug)]
pub struct Snapshot {
    pub player: String,
    pub player_name: String,
    /// The speaker that the group follows.
    pub coordinator: String,
    pub coordinator_name: String,
    pub state: String,
    pub position_ms: u64,
    pub modes: Modes,
    pub can_seek: bool,
    pub now: NowPlaying,
}

impl Snapshot {
    /// The same once more.
    pub fn copy(&self) -> (r: Snapshot)
        ensures
            r == *self,
    {
        Snapshot {
            player: self.player.clone(),
            player_name: self.player_name.clone(),
            coordinator: self.coordinator.clone(),
            coordinator_name: self.coordinator_name.clone(),
            state: self.state.clone(),
            position_ms: self.position_ms,
            modes: self.modes,
            can_seek: self.can_seek,
            now: self.now.copy(),
        }
    }

    /// Whether the speaker follows another.
    pub open spec fn spec_member(self) -> bool {
        self.coordinator@ != self.player@
    }

    /// Whether the speaker follows another.
    pub fn member(&self) -> (r: bool)
        ensures
            r == self.spec_member(),
    {
        !same(self.coordinator.as_str(), self.player.as_str())
    }
}

/// Why a speaker did not do what it was asked.
#[derive(Debug)]
pub enum SonosError {
    NotCoordinator { coordinator: String },
    Transport,
    /// The screen was left before the command went out.
    Cancelled { sentence: String },
    Api { code: String, sentence: String },
    Other { sentence: String },
}

/// Why a screen cannot do what was asked of it.
#[derive(Debug)]
pub enum Problem {
    ControlledBy(String),
    Unreachable,
    NothingToPlay,
    NotConnected,
    Said(String),
}

impl Problem {
    /// The same problem again.
    pub fn copy(&self) -> (r: Problem)
        ensures
            r == *self,
    {
        match self {
            Problem::ControlledBy(name) => Problem::ControlledBy(name.clone()),
            Problem::Unreachable => Problem::Unreachable,
            Problem::NothingToPlay => Problem::NothingToPlay,
            Problem::NotConnected => Problem::NotConnected,
            Problem::Said(text) => Problem::Said(text.clone()),
        }
    }

    /// The sentence for the screen.
    pub open spec fn spec_text(self) -> Seq<char> {
        match self {
            Problem::ControlledBy(name) => "Playback is controlled by "@ + name@
                + ". Open that speaker to change it."@,
            Problem::Unreachable => "Cannot reach the speaker."@,
            Problem::NothingToPlay => "Sonos found nothing to play there."@,
            Problem::NotConnected => "Not connected to the speaker."@,
            Problem::Said(sentence) => sentence@,
        }
    }

    /// The sentence for the screen.
    pub fn text(&self) -> (r: String)
        ensures
            r@ == self.spec_text(),
    {
        match self {
            Problem::ControlledBy(name) => {
                let mut s = "Playback is controlled by ".to_owned();
                s.append(name.as_str());
                s.append(". Open that speaker to change it.");
                s
            },
            Problem::Unreachable => "Cannot reach the speaker.".to_owned(),
            Problem::NothingToPlay => "Sonos found nothing to play there.".to_owned(),
            Problem::NotConnected => "Not connected to the speaker.".to_owned(),
            Problem::Said(sentence) => sentence.clone(),
        }
    }
}

/// What a screen makes of a speaker's error.
pub open spec fn described(error: SonosError) -> Problem {
    match error {
        SonosError::NotCoordinator { coordinator } => Problem::ControlledBy(coordinator),
        SonosError::Transport => Problem::Unreachable,
        SonosError::Cancelled { sentence } => Problem::Said(sentence),
        SonosError::Api { code, sentence } => if code@ == "ERROR_PLAYBACK_NO_CONTENT"@ {
            Problem::NothingToPlay
        } else {
            Problem::Said(sentence)
        },
        SonosError::Other { sentence } => Problem::Said(sentence),
    }
}

/// What a screen makes of a speaker's error.
pub fn describe(error: SonosError) -> (r: Problem)
    ensures
        r == described(error),
{
    match error {
        SonosError::NotCoordinator { coordinator } => Problem::ControlledBy(coordinator),
        SonosError::Transport => Problem::Unreachable,
        SonosError::Cancelled { sentence } => Problem::Said(sentence),
        SonosError::Api { code, sentence } => if same(
            code.as_str(),
            "ERROR_PLAYBACK_NO_CONTENT",
        ) {
            Problem::NothingToPlay
        } else {
            Problem::Said(sentence)
        },
        SonosError::Other { sentence } => Problem::Said(sentence),
    }
}

/// The line under a title: both names, or whichever there is, and never one
/// twice.
pub open spec fn names(artist: Seq<char>, album: Seq<char>) -> Seq<char> {
    if artist.len() == 0 {
        album
    } else if album.len() == 0 || artist == album {
        artist
    } else {
        artist + " · "@ + album
    }
}

/// The line under a title: both names, or whichever there is, and never one
/// twice.
pub fn line(artist: &str, album: &str) -> (r: String)
    ensures
        r@ == names(artist@, album@),
{
    if artist.unicode_len() == 0 {
        album.to_owned()
    } else if album.unicode_len() == 0 || same(artist, album) {
        artist.to_owned()
    } else {
        let mut s = artist.to_owned();
        s.append(" · ");
        s.append(album);
        s
    }
}

/// A time in seconds as a player shows it.
pub open spec fn clock_face(t: nat) -> Seq<char> {
    if t >= 3600 {
        decimal(t / 3600) + ":"@ + two_digits(t / 60 % 60) + ":"@ + two_digits(t % 60)
    } else {
        decimal(t / 60) + ":"@ + two_digits(t % 60)
    }
}

/// A time in seconds as a player shows it.
pub fn clock(t: u64) -> (r: String)
    ensures
        r@ == clock_face(t as nat),
{
    if t >= 3600 {
        let mut s = number(t / 3600);
        s.append(":");
        s.append(padded(t / 60 % 60).as_str());
        s.append(":");
        s.append(padded(t % 60).as_str());
        s
    } else {
        let mut s = number(t / 60);
        s.append(":");
        s.append(padded(t % 60).as_str());
        s
    }
}

/// A text in lower case: what `str::to_lowercase` gives.
pub uninterp spec fn lowercased(s: Seq<char>) -> Seq<char>;

/// `str::to_lowercase`. Its result depends on the text alone, by Unicode's
/// tables, and is known here by its name.
#[verifier::external_body]
fn lowercase(s: &str) -> (r: String)
    ensures
        r@ == lowercased(s@),
{
    s.to_lowercase()
}

/// A text with spaces for its underscores.
pub open spec fn spaced(s: Seq<char>) -> Seq<char> {
    s.map_values(
        |c: char|
            if c == '_' {
                ' '
            } else {
                c
            },
    )
}

/// A kind of container as it is read: in words, in lower case.
pub fn kind_text(kind: &str) -> (r: String)
    ensures
        r@ == if kind@.len() == 0 {
            kind@
        } else {
            lowercased(spaced(kind@))
        },
{
    if kind.unicode_len() == 0 {
        return kind.to_owned();
    }
    lowercase(spaces(kind).as_str())
}

/// A text with spaces for its underscores.
pub fn spaces(s: &str) -> (r: String)
    ensures
        r@ == spaced(s@),
{
    let count: usize = s.unicode_len();
    let mut out = String::new();
    let mut i: usize = 0;
    while i < count
        invariant
            count == s@.len(),
            i <= count,
            out@ == spaced(s@).take(i as int),
        decreases count - i,
    {
        if s.get_char(i) == '_' {
            proof {
                reveal_strlit(" ");
            }
            assert(" "@ =~= seq![spaced(s@)[i as int]]);
            out.append(" ");
        } else {
            assert(s@.subrange(i as int, i + 1) =~= seq![spaced(s@)[i as int]]);
            out.append(s.substring_char(i, i + 1));
        }
        assert(spaced(s@).take(i + 1) =~= spaced(s@).take(i as int) + seq![spaced(s@)[i as int]]);
        i = i + 1;
    }
    assert(spaced(s@).take(i as int) =~= spaced(s@));
    out
}

/// Whether a group still plays what it played before a skip.
pub open spec fn still(before: Option<Track>, now: Option<Track>) -> bool {
    match (before, now) {
        (Some(b), Some(c)) => b.name@ == c.name@ && b.artist@ == c.artist@ && b.image_url@
            == c.image_url@,
        (None, None) => true,
        _ => false,
    }
}

/// Whether a group still plays what it played before a skip.
pub fn unchanged(before: &Option<Track>, now: &Option<Track>) -> (r: bool)
    ensures
        r == still(*before, *now),
{
    match (before, now) {
        (Some(b), Some(c)) => same(b.name.as_str(), c.name.as_str()) && same(
            b.artist.as_str(),
            c.artist.as_str(),
        ) && same(b.image_url.as_str(), c.image_url.as_str()),
        (None, None) => true,
        _ => false,
    }
}

/// The reads that follow a skip. A skip is acknowledged before the player
/// switches tracks, so a group is read until its track differs, a read fails,
/// or it has been read often enough.
#[derive(Debug)]
pub struct AfterSkip {
    pub before: Option<Track>,
    pub reads: u8,
    pub latest: Option<NowPlaying>,
}

impl AfterSkip {
    /// A group that was skipped while it played `before`, not read yet.
    pub fn new(before: Option<Track>) -> (r: AfterSkip)
        ensures
            r == (AfterSkip { before, reads: 0, latest: None }),
    {
        AfterSkip { before, reads: 0, latest: None }
    }

    /// Whether a read that came back leaves another one to make.
    pub open spec fn again(self, now: Option<NowPlaying>) -> bool {
        &&& now matches Some(n)
        &&& still(self.before, n.current)
        &&& self.reads + 1 < SKIP_READS
    }

    /// Take what a read came back with, if it did. Says whether to read once
    /// more, after a pause.
    pub fn read(&mut self, now: Option<NowPlaying>) -> (r: bool)
        requires
            old(self).reads < SKIP_READS,
        ensures
            r == old(self).again(now),
            r ==> final(self).reads < SKIP_READS,
            *final(self) == (AfterSkip {
                before: old(self).before,
                reads: (old(self).reads + 1) as u8,
                latest: if now is Some {
                    now
                } else {
                    old(self).latest
                },
            }),
    {
        self.reads = self.reads + 1;
        match now {
            Some(n) => {
                let again = unchanged(&self.before, &n.current) && self.reads < SKIP_READS;
                self.latest = Some(n);
                again
            },
            None => false,
        }
    }
}

/// A clock shows minutes and seconds, and hours where there are any.
pub proof fn a_clock_shows_its_time(h: nat, m: nat, s: nat)
    requires
        m < 60,
        s < 60,
    ensures
        h > 0 ==> clock_face(h * 3600 + m * 60 + s) == decimal(h) + ":"@ + two_digits(m) + ":"@
            + two_digits(s),
        clock_face(m * 60 + s) == decimal(m) + ":"@ + two_digits(s),
{
    let t = h * 3600 + m * 60 + s;
    assert(t / 3600 == h) by (nonlinear_arith)
        requires
            t == h * 3600 + m * 60 + s,
            m < 60,
            s < 60,
    ;
    assert(t / 60 == h * 60 + m) by (nonlinear_arith)
        requires
            t == h * 3600 + m * 60 + s,
            s < 60,
    ;
    assert((h * 60 + m) % 60 == m) by (nonlinear_arith)
        requires
            m < 60,
    ;
    assert(t % 60 == s) by (nonlinear_arith)
        requires
            t == h * 3600 + m * 60 + s,
            s < 60,
    ;
    assert((m * 60 + s) / 60 == m) by (nonlinear_arith)
        requires
            s < 60,
    ;
    assert((m * 60 + s) % 60 == s) by (nonlinear_arith)
        requires
            s < 60,
    ;
}

/// A line names artist and album, each once, and whichever there is.
pub proof fn a_line_never_repeats_a_name(artist: Seq<char>, album: Seq<char>)
    ensures
        names(artist, Seq::empty()) == artist,
        names(Seq::empty(), album) == album,
        names(artist, artist) == artist,
        artist.len() > 0 && album.len() > 0 && artist != album ==> names(artist, album) == artist
            + " · "@ + album,
{
}

/// What an error says on the screen.
pub proof fn an_error_is_a_sentence(coordinator: String, code: String, sentence: String)
    ensures
        described(SonosError::NotCoordinator { coordinator }).spec_text()
            == "Playback is controlled by "@ + coordinator@
            + ". Open that speaker to change it."@,
        described(SonosError::Transport).spec_text() == "Cannot reach the speaker."@,
        described(SonosError::Cancelled { sentence }).spec_text() == sentence@,
        described(SonosError::Other { sentence }).spec_text() == sentence@,
        code@ == "ERROR_PLAYBACK_NO_CONTENT"@ ==> described(
            SonosError::Api { code, sentence },
        ).spec_text() == "Sonos found nothing to play there."@,
        code@ != "ERROR_PLAYBACK_NO_CONTENT"@ ==> described(
            SonosError::Api { code, sentence },
        ).spec_text() == sentence@,
        Problem::NotConnected.spec_text() == "Not connected to the speaker."@,
{
}

/// A speaker follows another just where another one leads it.
pub proof fn a_member_has_another_coordinator(s: Snapshot)
    ensures
        s.spec_member() <==> s.coordinator@ != s.player@,
{
}

/// A group is read again after a skip while it still plays the same, and six
/// times at the most; a read that failed ends it.
pub proof fn a_skip_is_waited_for(reads: AfterSkip, now: NowPlaying)
    ensures
        !reads.again(None),
        reads.reads >= 5 ==> !reads.again(Some(now)),
        reads.reads < 5 ==> (reads.again(Some(now)) <==> still(reads.before, now.current)),
{
}

/// A track is another one where its name, its artist or its picture differs, or
/// where there was none.
pub proof fn a_track_is_told_by_name_artist_and_picture(a: Track, b: Track)
    ensures
        still(None, None),
        !still(Some(a), None) && !still(None, Some(b)),
        still(Some(a), Some(b)) <==> a.name@ == b.name@ && a.artist@ == b.artist@ && a.image_url@
            == b.image_url@,
        still(Some(a), Some(a)),
{
}

/// Two reads of a track are alike where everything that was read is.
pub proof fn alike_tracks_are_alike_in_all(a: Track, b: Track)
    ensures
        both_alike(None, None),
        !both_alike(Some(a), None) && !both_alike(None, Some(b)),
        both_alike(Some(a), Some(b)) <==> a.name@ == b.name@ && a.artist@ == b.artist@ && a.album@
            == b.album@ && a.image_url@ == b.image_url@ && a.duration_ms == b.duration_ms
            && a.service@ == b.service@,
{
}

/// A kind of container reads with spaces for underlines, and is otherwise kept.
pub proof fn underlines_read_as_spaces(s: Seq<char>, i: int)
    requires
        0 <= i < s.len(),
    ensures
        spaced(s).len() == s.len(),
        s[i] == '_' ==> spaced(s)[i] == ' ',
        s[i] != '_' ==> spaced(s)[i] == s[i],
{
}

/// A second passes while a skip is waited for.
pub proof fn a_skip_is_waited_for_a_second()
    ensures
        SKIP_READS == 6,
        SKIP_PAUSE_MS == 200,
        (SKIP_READS - 1) * SKIP_PAUSE_MS == 1000,
{
}

} // verus!
