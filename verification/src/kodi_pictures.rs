//! The built-in Kodi player screen in fixed states: a film playing or paused,
//! nothing loaded, an error, and its three sheets.
use crate::media_player::{reads, Choice};
use crate::sonos::{clock, clock_face};
use vstd::prelude::*;

verus! {

/// The size of a backdrop, in pixels.
pub const BACKDROP_WIDTH: u32 = 960;

pub const BACKDROP_HEIGHT: u32 = 540;

/// A colour of the backdrop's pixel in a column and a row, red first: squares of
/// sixty pixels, greener downwards and bluer to the right.
pub open spec fn backdrop_colour(x: int, y: int, colour: int) -> int {
    if colour == 0 {
        if (x / 60 + y / 60) % 2 == 0 {
            70
        } else {
            25
        }
    } else if colour == 1 {
        y * 170 / 540
    } else {
        x * 210 / 960
    }
}

/// The backdrop, row after row, three bytes to a pixel.
pub open spec fn backdrop_bytes() -> Seq<u8> {
    Seq::new(
        (3 * BACKDROP_WIDTH * BACKDROP_HEIGHT) as nat,
        |i: int|
            backdrop_colour((i / 3) % BACKDROP_WIDTH as int, (i / 3) / BACKDROP_WIDTH as int, i % 3)
                as u8,
    )
}

proof fn backdrop_at(x: int, y: int, colour: int)
    requires
        0 <= x < BACKDROP_WIDTH,
        0 <= y < BACKDROP_HEIGHT,
        0 <= colour < 3,
    ensures
        2880 * y + 3 * x + colour < backdrop_bytes().len(),
        backdrop_bytes()[2880 * y + 3 * x + colour] == backdrop_colour(x, y, colour) as u8,
{
    let i = 2880 * y + 3 * x + colour;
    let k = 960 * y + x;
    assert(i / 3 == k && i % 3 == colour);
    assert(k / 960 == y && k % 960 == x);
}

/// A backdrop that is no photograph: a pattern of its own.
pub fn backdrop_pixels() -> (r: Vec<u8>)
    ensures
        r@ == backdrop_bytes(),
{
    let ghost bytes = backdrop_bytes();
    let mut out: Vec<u8> = Vec::new();
    let mut y: u32 = 0;
    while y < BACKDROP_HEIGHT
        invariant
            y <= BACKDROP_HEIGHT,
            out@.len() == 2880 * y,
            forall|i: int| 0 <= i < out@.len() ==> #[trigger] out@[i] == bytes[i],
            bytes == backdrop_bytes(),
        decreases BACKDROP_HEIGHT - y,
    {
        let mut x: u32 = 0;
        while x < BACKDROP_WIDTH
            invariant
                x <= BACKDROP_WIDTH,
                y < BACKDROP_HEIGHT,
                out@.len() == 2880 * y + 3 * x,
                forall|i: int| 0 <= i < out@.len() ==> #[trigger] out@[i] == bytes[i],
                bytes == backdrop_bytes(),
            decreases BACKDROP_WIDTH - x,
        {
            let red: u8 = if (x / 60 + y / 60) % 2 == 0 {
                70
            } else {
                25
            };
            proof {
                backdrop_at(x as int, y as int, 0);
                backdrop_at(x as int, y as int, 1);
                backdrop_at(x as int, y as int, 2);
            }
            out.push(red);
            out.push((y * 170 / 540) as u8);
            out.push((x * 210 / 960) as u8);
            x = x + 1;
        }
        y = y + 1;
    }
    assert(out@ =~= backdrop_bytes());
    out
}

/// The PNG file of a picture, where it has one.
pub uninterp spec fn png_file(rgb: Seq<u8>, width: u32, height: u32) -> Option<Seq<u8>>;

/// A picture as a PNG file: `image::write_buffer_with_format` into memory, in
/// the format `Png` and the colour type `Rgb8`. What it writes depends on the
/// pixels and the size alone, and is named here and not described; it panics
/// where the pixels do not fill the size.
#[verifier::external_body]
fn png(rgb: &Vec<u8>, width: u32, height: u32) -> (r: Option<Vec<u8>>)
    requires
        rgb@.len() == 3 * width * height,
    ensures
        match r {
            Some(file) => png_file(rgb@, width, height) == Some(file@),
            None => png_file(rgb@, width, height) is None,
        },
{
    let mut file = std::io::Cursor::new(Vec::new());
    let (colour, format) = (image::ColorType::Rgb8, image::ImageOutputFormat::Png);
    match image::write_buffer_with_format(&mut file, rgb, width, height, colour, format) {
        Ok(()) => Some(file.into_inner()),
        Err(_) => None,
    }
}

/// The backdrop as a file, the way that fanart comes.
pub fn backdrop() -> (r: Option<Vec<u8>>)
    ensures
        match r {
            Some(file) => png_file(backdrop_bytes(), BACKDROP_WIDTH, BACKDROP_HEIGHT) == Some(
                file@,
            ),
            None => png_file(backdrop_bytes(), BACKDROP_WIDTH, BACKDROP_HEIGHT) is None,
        },
{
    png(&backdrop_pixels(), BACKDROP_WIDTH, BACKDROP_HEIGHT)
}

/// A film, its times in seconds.
#[derive(Clone, Copy, Debug)]
pub struct Film {
    pub title: &'static str,
    pub year: &'static str,
    pub duration_s: u64,
    pub position_s: u64,
}

/// A film that is long enough for hours on the clock, part of the way in.
pub fn andrei_rublev() -> (r: Film)
    ensures
        r.title@ == "Andrei Rublev"@,
        r.year@ == "1966"@,
        r.duration_s == 12300,
        r.position_s == 2537,
{
    Film { title: "Andrei Rublev", year: "1966", duration_s: 12300, position_s: 2537 }
}

fn choice(title: &str, detail: &str) -> (r: Choice)
    ensures
        reads(r, title@, detail@),
{
    Choice { title: title.to_owned(), detail: detail.to_owned() }
}

/// Chapters as the sheet lists them: a name, and the time on the clock.
pub fn chapters() -> (r: Vec<Choice>)
    ensures
        r@.len() == 5,
        reads(r@[0], "The Jester"@, clock_face(0)),
        reads(r@[1], "Theophanes the Greek"@, clock_face(1620)),
        reads(r@[2], "The Passion According to Andrei"@, clock_face(4080)),
        reads(r@[3], "The Raid"@, clock_face(7020)),
        reads(r@[4], "The Bell"@, clock_face(10500)),
{
    let mut rows: Vec<Choice> = Vec::new();
    rows.push(choice("The Jester", clock(0).as_str()));
    rows.push(choice("Theophanes the Greek", clock(1620).as_str()));
    rows.push(choice("The Passion According to Andrei", clock(4080).as_str()));
    rows.push(choice("The Raid", clock(7020).as_str()));
    rows.push(choice("The Bell", clock(10500).as_str()));
    rows
}

/// Audio streams as the sheet lists them: a name or language, and the codec.
pub fn audio_tracks() -> (r: Vec<Choice>)
    ensures
        r@.len() == 2,
        reads(r@[0], "Russian (Original)"@, "AC3"@),
        reads(r@[1], "English"@, "AAC"@),
{
    let mut rows: Vec<Choice> = Vec::new();
    rows.push(choice("Russian (Original)", "AC3"));
    rows.push(choice("English", "AAC"));
    rows
}

/// Subtitle streams as the sheet lists them, with the row that switches them off
/// first.
pub fn subtitle_tracks() -> (r: Vec<Choice>)
    ensures
        r@.len() == 3,
        reads(r@[0], "Off"@, ""@),
        reads(r@[1], "English"@, "subrip"@),
        reads(r@[2], "Russian"@, "subrip"@),
{
    let mut rows: Vec<Choice> = Vec::new();
    rows.push(choice("Off", ""));
    rows.push(choice("English", "subrip"));
    rows.push(choice("Russian", "subrip"));
    rows
}

/// What the player screen shows.
#[derive(Debug)]
pub struct Picture {
    /// The activity and the room that the header names.
    pub activity: &'static str,
    pub room: &'static str,
    pub ready: bool,
    pub connected: bool,
    pub paused: bool,
    pub can_seek: bool,
    pub has_art: bool,
    pub title: String,
    pub metadata: String,
    pub elapsed: String,
    pub remaining: String,
    /// How far the film is, as a position and a length in seconds.
    pub progress: (u64, u64),
}

/// Whether the header names the activity and the room of every picture.
pub open spec fn in_its_place(picture: Picture) -> bool {
    picture.activity@ == "Watch TV"@ && picture.room@ == "Living room"@
}

/// A film, playing or paused.
pub fn show_playing(film: &Film, paused: bool) -> (r: Picture)
    ensures
        in_its_place(r),
        r.ready && r.connected && r.can_seek && r.has_art,
        r.paused == paused,
        r.title@ == film.title@,
        r.metadata@ == film.year@,
        r.elapsed@ == clock_face(film.position_s as nat),
        r.remaining@ == "−"@ + clock_face(
            if film.position_s < film.duration_s {
                (film.duration_s - film.position_s) as nat
            } else {
                0
            },
        ),
        r.progress == (film.position_s, film.duration_s),
{
    let mut remaining = "−".to_owned();
    remaining.append(clock(film.duration_s.saturating_sub(film.position_s)).as_str());
    Picture {
        activity: "Watch TV",
        room: "Living room",
        ready: true,
        connected: true,
        paused,
        can_seek: true,
        has_art: true,
        title: film.title.to_owned(),
        metadata: film.year.to_owned(),
        elapsed: clock(film.position_s),
        remaining,
        progress: (film.position_s, film.duration_s),
    }
}

fn silent(connected: bool, title: &str) -> (r: Picture)
    ensures
        in_its_place(r),
        !r.ready && r.paused && !r.can_seek && !r.has_art,
        r.connected == connected,
        r.title@ == title@,
        r.metadata@ == ""@ && r.elapsed@ == ""@ && r.remaining@ == ""@,
        r.progress == (0u64, 0u64),
{
    Picture {
        activity: "Watch TV",
        room: "Living room",
        ready: false,
        connected,
        paused: true,
        can_seek: false,
        has_art: false,
        title: title.to_owned(),
        metadata: "".to_owned(),
        elapsed: "".to_owned(),
        remaining: "".to_owned(),
        progress: (0, 0),
    }
}

/// Connected, with nothing loaded.
pub fn show_idle() -> (r: Picture)
    ensures
        in_its_place(r),
        !r.ready && r.connected && r.paused && !r.can_seek && !r.has_art,
        r.title@
            == "Connected to Kodi.\nUse the remote to choose something on your TV."@,
        r.metadata@ == ""@ && r.elapsed@ == ""@ && r.remaining@ == ""@,
        r.progress == (0u64, 0u64),
{
    silent(true, "Connected to Kodi.\nUse the remote to choose something on your TV.")
}

/// A player that cannot be read.
pub fn show_error() -> (r: Picture)
    ensures
        in_its_place(r),
        !r.ready && !r.connected && r.paused && !r.can_seek && !r.has_art,
        r.title@
            == "Kodi is unavailable. Check the player and its remote-control settings."@,
        r.metadata@ == ""@ && r.elapsed@ == ""@ && r.remaining@ == ""@,
        r.progress == (0u64, 0u64),
{
    silent(false, "Kodi is unavailable. Check the player and its remote-control settings.")
}

/// The backdrop: squares of sixty pixels in two reds, green that grows downwards,
/// and blue that grows to the right.
pub proof fn the_backdrop_is_a_board_of_squares(x: int, y: int)
    requires
        0 <= x < 960,
        0 <= y < 540,
    ensures
        ({
            let at = 3 * (y * 960 + x);
            &&& 0 <= at && at + 2 < backdrop_bytes().len()
            &&& backdrop_bytes()[at] == if (x / 60 + y / 60) % 2 == 0 {
                70u8
            } else {
                25u8
            }
            &&& backdrop_bytes()[at + 1] == y * 170 / 540
            &&& backdrop_bytes()[at + 2] == x * 210 / 960
        }),
{
    let p = y * 960 + x;
    assert(p % 960 == x && p / 960 == y) by (nonlinear_arith)
        requires
            p == y * 960 + x,
            0 <= x < 960,
            0 <= y,
    ;
    assert((3 * p) / 3 == p && (3 * p) % 3 == 0);
    assert((3 * p + 1) / 3 == p && (3 * p + 1) % 3 == 1);
    assert((3 * p + 2) / 3 == p && (3 * p + 2) % 3 == 2);
}

} // verus!
