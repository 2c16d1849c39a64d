//! The display around its pixels: its size, how frames are held back to the
//! refresh, the backlights, and standby.
use crate::rounding::{
    a_quotient_is_near, kept_quotient, length_at_least, nearest_even, nearest_whole,
    nothing_is_kept, power, quotient, rounded, scaling_keeps_a_number, scaling_keeps_a_quotient,
    scaling_keeps_the_nearest, DOUBLE,
};
use crate::text::{
    begins, decimal, integer, number, padded, parse, parsed, same, signed_decimal, starts_with,
    trim, trimmed, two_digits,
};
use vstd::arithmetic::power2::{lemma2_to64, lemma_pow2_adds, lemma_pow2_pos, pow2};
use vstd::prelude::*;

verus! {

/// One frame period of the panel, in nanoseconds.
pub const FRAME_NS: u64 = 16_667_000;

/// A wait longer than this is a stall, in nanoseconds.
pub const STALL_NS: u64 = 100_000_000;

/// A wait shorter than this does not wait for the refresh, in nanoseconds.
pub const SHORT_NS: u64 = 2_000_000;

/// Error numbers of the kernel.
pub const EPERM: i32 = 1;

pub const EINTR: i32 = 4;

pub const EINVAL: i32 = 22;

pub const ENOTTY: i32 = 25;

pub const ENOSYS: i32 = 38;

/// The panel's size in pixels, and a framebuffer row's in bytes.
#[derive(Clone, Copy, PartialEq, Eq, Structural, Debug)]
pub struct Geometry {
    pub width: u32,
    pub height: u32,
    pub stride: u64,
}

/// A number that a file holds, where it holds one that small.
pub open spec fn number_in(text: Seq<char>, most: int) -> Option<int> {
    match parsed(trimmed(text)) {
        Some(n) => if trimmed(text)[0] != '-' && n <= most {
            Some(n)
        } else {
            None
        },
        None => None,
    }
}

fn read_number(text: &str, most: u64) -> (r: Option<u64>)
    requires
        most <= 0xffff_ffff,
    ensures
        match r {
            Some(n) => number_in(text@, most as int) == Some(n as int) && n <= most,
            None => number_in(text@, most as int) is None,
        },
{
    let text = trim(text);
    match parse(text, most) {
        Some(n) => if text.get_char(0) != '-' {
            Some(n as u64)
        } else {
            None
        },
        None => None,
    }
}

/// The display's geometry: the size that the driver reports, where it reports
/// one, and the row length that the system gives, where it does.
pub fn geometry(reported: Option<(u32, u32)>, stride: Option<&str>) -> (r: Geometry)
    ensures
        ({
            let (width, height) = match reported {
                Some((w, h)) => if w > 0 && h > 0 {
                    (w, h)
                } else {
                    (480u32, 800u32)
                },
                None => (480u32, 800u32),
            };
            &&& r.width == width
            &&& r.height == height
            &&& r.stride == match stride {
                Some(text) => match number_in(text@, 0xffff_ffff) {
                    Some(n) => n,
                    None => width * 4,
                },
                None => width * 4,
            }
        }),
{
    let (width, height): (u32, u32) = match reported {
        Some((w, h)) => if w > 0 && h > 0 {
            (w, h)
        } else {
            (480, 800)
        },
        None => (480, 800),
    };
    let given: Option<u64> = match stride {
        Some(text) => read_number(text, 0xffff_ffff),
        None => None,
    };
    let stride: u64 = match given {
        Some(n) => n,
        None => width as u64 * 4,
    };
    Geometry { width, height, stride }
}

/// How each drawn frame is held back to the panel's refresh.
#[derive(Clone, Copy, PartialEq, Eq, Structural, Debug)]
pub enum Pacing {
    /// The driver blocks until the next vertical sync.
    WaitForVsync,
    /// A pan to where the display is already, which waits for the refresh.
    Pan,
    /// Sleep until one frame after the draw began.
    Sleep,
}

/// Which waits are tried: the vertical sync, and the pan. None unless asked for:
/// both stall while a key is held.
pub fn tried(choice: &str) -> (r: (bool, bool))
    ensures
        r.0 == (choice@ == "auto"@ || choice@ == "wait"@),
        r.1 == (choice@ == "auto"@ || choice@ == "pan"@),
{
    proof {
        reveal_strlit("auto");
        reveal_strlit("wait");
        reveal_strlit("pan");
    }
    if same(choice, "auto") {
        (true, true)
    } else if same(choice, "pan") {
        assert("pan"@[0] != "wait"@[0]);
        (false, true)
    } else if same(choice, "wait") {
        (true, false)
    } else {
        (false, false)
    }
}

/// The name of an error number.
pub open spec fn errno_text(errno: i32) -> Seq<char> {
    if errno == ENOTTY {
        "ENOTTY"@
    } else if errno == EINVAL {
        "EINVAL"@
    } else if errno == ENOSYS {
        "ENOSYS"@
    } else if errno == EPERM {
        "EPERM"@
    } else if errno == EINTR {
        "EINTR"@
    } else {
        "errno "@ + signed_decimal(errno as int)
    }
}

/// The name of an error number.
pub fn errno_name(errno: i32) -> (r: String)
    ensures
        r@ == errno_text(errno),
{
    if errno == ENOTTY {
        "ENOTTY".to_owned()
    } else if errno == EINVAL {
        "EINVAL".to_owned()
    } else if errno == ENOSYS {
        "ENOSYS".to_owned()
    } else if errno == EPERM {
        "EPERM".to_owned()
    } else if errno == EINTR {
        "EINTR".to_owned()
    } else {
        let mut s = "errno ".to_owned();
        s.append(integer(errno as i64).as_str());
        s
    }
}

/// A time in milliseconds, as a double in its units: the seconds are a double
/// first.
pub open spec fn milliseconds(ns: nat) -> nat {
    rounded(quotient(ns * pow2(1074), 1_000_000_000, DOUBLE as nat) * 1000, DOUBLE as nat)
}

/// The same in hundredths of a millisecond, as it is written.
pub open spec fn hundredths(ns: nat) -> nat {
    nearest_even(milliseconds(ns) * 100, pow2(1074))
}

/// A short time in milliseconds, to the nearest hundredth.
pub open spec fn hundredths_text(ns: nat) -> Seq<char> {
    let n = hundredths(ns);
    decimal(n / 100) + "."@ + two_digits(n % 100)
}

fn hundredths_of(ns: u64) -> (r: u64)
    requires
        ns < SHORT_NS,
    ensures
        r == hundredths(ns as nat),
{
    let unit: u128 = power(82);
    proof {
        assert(pow2(82) == 0x4_0000_0000_0000_0000_0000) by {
            lemma_pow2_adds(64, 18);
            lemma2_to64();
        }
    }
    let n: u128 = ns as u128 * unit;
    let seconds: u128 = kept_quotient(n, 1_000_000_000, DOUBLE);
    proof {
        a_quotient_is_near(n as nat, 1_000_000_000, DOUBLE as nat);
    }
    let ms: u128 = kept_quotient(seconds * 1000, 1, DOUBLE);
    proof {
        a_quotient_is_near((seconds * 1000) as nat, 1, DOUBLE as nat);
        let s = pow2(992);
        lemma_pow2_pos(992);
        lemma_pow2_adds(82, 992);
        assert(ns * (unit * s) == n * s) by (nonlinear_arith)
            requires
                n == ns * unit,
        ;
        if ns > 0 {
            assert(n >= unit) by (nonlinear_arith)
                requires
                    n == ns * unit,
                    ns > 0,
            ;
            assert(pow2(52) == 0x10_0000_0000_0000) by {
                lemma_pow2_adds(32, 20);
                lemma2_to64();
            }
            length_at_least(n as nat / 1_000_000_000, 52);
            scaling_keeps_a_quotient(n as nat, 1_000_000_000, DOUBLE as nat, 992);
        } else {
            nothing_is_kept(1_000_000_000, DOUBLE as nat);
            assert(0 * pow2(1074) == 0 && 0 * s == 0);
        }
        assert(quotient(ns as nat * pow2(1074), 1_000_000_000, DOUBLE as nat) == seconds * s);
        assert((seconds * s) * 1000 == (seconds * 1000) * s) by (nonlinear_arith);
        scaling_keeps_a_number((seconds * 1000) as nat, DOUBLE as nat, 992);
        assert((ms * s) * 100 == (ms * 100) * s) by (nonlinear_arith);
        scaling_keeps_the_nearest((ms * 100) as nat, unit as nat, s);
    }
    let r: u128 = nearest_whole(ms * 100, unit);
    proof {
        assert(r <= 0xffff_ffff) by (nonlinear_arith)
            requires
                r <= (ms * 100) / (unit as int) + 1,
                unit == 0x4_0000_0000_0000_0000_0000,
                0 <= ms < 0x100_0000_0000_0000_0000_0000,
        ;
    }
    r as u64
}

/// Why a wait is not used.
pub open spec fn refusal_of(name: Seq<char>, result: Result<u64, i32>) -> Seq<char> {
    match result {
        Err(errno) => name + ": "@ + errno_text(errno),
        Ok(took) => name + ": returned in "@ + hundredths_text(took as nat) + "ms"@,
    }
}

/// What follows a wait of a trial.
#[derive(Debug)]
pub enum Trial {
    /// The wait is made once more.
    Again,
    /// The trial is over: the time of its last wait in nanoseconds, or why that
    /// failed.
    Over(Result<u64, i32>),
}

/// What follows a wait of a trial in which so many were made before it.
pub open spec fn after_wait(made: u32, wait: Result<u64, i32>) -> Trial {
    if wait is Ok && made == 0 {
        Trial::Again
    } else {
        Trial::Over(wait)
    }
}

/// Try a wait: twice, since the first may return at once, and not again once it
/// has failed.
pub fn trial(made: u32, wait: Result<u64, i32>) -> (r: Trial)
    ensures
        r == after_wait(made, wait),
{
    match wait {
        Ok(_) => if made == 0 {
            Trial::Again
        } else {
            Trial::Over(wait)
        },
        Err(_) => Trial::Over(wait),
    }
}

/// A wait is tried twice at the most and never again after an error, and the
/// time that counts is the second's.
pub proof fn a_trial_is_two_waits(first: Result<u64, i32>, second: Result<u64, i32>)
    ensures
        after_wait(0, first) is Again <==> first is Ok,
        first is Err ==> after_wait(0, first) == Trial::Over(first),
        after_wait(1, second) == Trial::Over(second),
{
}

/// What a trial of a wait shows: how long it blocks, where it works and does;
/// otherwise why it does not. The second wait must last for a while, in
/// nanoseconds.
pub fn probe(name: &str, why: &mut Vec<String>, result: Result<u64, i32>) -> (r: Option<u64>)
    ensures
        match result {
            Ok(took) => if took >= SHORT_NS {
                r == Some(took) && final(why)@ == old(why)@
            } else {
                r is None && said_why(old(why)@, final(why)@, refusal_of(name@, result))
            },
            Err(_) => r is None && said_why(old(why)@, final(why)@, refusal_of(name@, result)),
        },
        r is Some <==> (result matches Ok(took) && took >= 2_000_000),
        r matches Some(took) ==> result == Ok::<u64, i32>(took),
        r is Some ==> final(why)@ == old(why)@,
{
    let mut s = name.to_owned();
    match result {
        Ok(took) => {
            if took >= SHORT_NS {
                return Some(took);
            }
            let n: u64 = hundredths_of(took);
            s.append(": returned in ");
            let mut time = number(n / 100);
            time.append(".");
            time.append(padded(n % 100).as_str());
            assert(time@ == hundredths_text(took as nat));
            s.append(time.as_str());
            s.append("ms");
        },
        Err(errno) => {
            s.append(": ");
            s.append(errno_name(errno).as_str());
        },
    }
    assert(s@ == refusal_of(name@, result));
    why.push(s);
    assert(why@.drop_last() =~= old(why)@);
    None
}

/// Whether one reason more is given.
pub open spec fn said_why(old: Seq<String>, new: Seq<String>, reason: Seq<char>) -> bool {
    &&& new.len() == old.len() + 1
    &&& new.drop_last() == old
    &&& new.last()@ == reason
}

/// Reasons with a semicolon between each two, up to the n-th.
pub open spec fn joined(why: Seq<String>, n: int) -> Seq<char>
    decreases n,
{
    if n <= 0 {
        Seq::empty()
    } else if n == 1 {
        why[0]@
    } else {
        joined(why, n - 1) + "; "@ + why[n - 1]@
    }
}

/// The reasons in brackets, or nothing where there are none.
pub fn reasons(why: &Vec<String>) -> (r: String)
    ensures
        r@ == if why@.len() == 0 {
            ""@
        } else {
            " ("@ + joined(why@, why@.len() as int) + ")"@
        },
{
    if why.len() == 0 {
        return "".to_owned();
    }
    let mut all = why[0].clone();
    let mut i: usize = 1;
    while i < why.len()
        invariant
            1 <= i <= why@.len(),
            all@ == joined(why@, i as int),
        decreases why@.len() - i,
    {
        all.append("; ");
        all.append(why[i].as_str());
        i = i + 1;
    }
    let mut s = " (".to_owned();
    s.append(all.as_str());
    s.append(")");
    s
}

/// How frames are paced once the waits have been tried: by the first that works.
pub fn chosen_pacing(vsync: Option<u64>, pan: Option<u64>) -> (r: Pacing)
    ensures
        r == if vsync is Some {
            Pacing::WaitForVsync
        } else if pan is Some {
            Pacing::Pan
        } else {
            Pacing::Sleep
        },
        r is WaitForVsync <==> vsync is Some,
        r is Sleep <==> vsync is None && pan is None,
{
    if vsync.is_some() {
        Pacing::WaitForVsync
    } else if pan.is_some() {
        Pacing::Pan
    } else {
        Pacing::Sleep
    }
}

/// How frames are paced after a wait. A wait that failed, or that stalled, is
/// not used again; a signal that cut one short is no failure.
pub open spec fn pacing_after(pacing: Pacing, failed: Option<i32>, waited_ns: u64) -> Pacing {
    if (failed matches Some(errno) && errno != EINTR) || waited_ns > STALL_NS {
        Pacing::Sleep
    } else {
        pacing
    }
}

/// How frames are paced after a wait.
pub fn next_pacing(pacing: Pacing, failed: Option<i32>, waited_ns: u64) -> (r: Pacing)
    ensures
        r == pacing_after(pacing, failed, waited_ns),
{
    let broken = match failed {
        Some(errno) => errno != EINTR,
        None => false,
    };
    if broken || waited_ns > STALL_NS {
        Pacing::Sleep
    } else {
        pacing
    }
}

/// How long to sleep, in nanoseconds: until one frame after the draw began,
/// where frames are paced by sleeping.
pub fn sleep_ns(pacing: Pacing, since_draw_ns: u64) -> (r: u64)
    ensures
        r == if pacing == Pacing::Sleep && since_draw_ns < FRAME_NS {
            (FRAME_NS - since_draw_ns) as u64
        } else {
            0
        },
        r > 0 ==> pacing is Sleep && since_draw_ns + r == 16_667_000,
        pacing is Sleep && since_draw_ns < 16_667_000 ==> r > 0,
{
    if pacing == Pacing::Sleep {
        FRAME_NS.saturating_sub(since_draw_ns)
    } else {
        0
    }
}

/// A wait that stalled or failed is never used again.
pub proof fn a_broken_wait_stays_abandoned(
    pacing: Pacing,
    failed: Option<i32>,
    waited: u64,
    failed_later: Option<i32>,
    waited_later: u64,
)
    requires
        pacing_after(pacing, failed, waited) == Pacing::Sleep,
    ensures
        pacing_after(pacing_after(pacing, failed, waited), failed_later, waited_later)
            == Pacing::Sleep,
{
}

/// The level next to one: the driver drops a write of what it holds already.
pub open spec fn neighbour(level: u8) -> u8 {
    if level == 255 {
        254
    } else {
        (level + 1) as u8
    }
}

fn next_to(level: u8) -> (r: u8)
    ensures
        r == neighbour(level),
{
    if level == 255 {
        254
    } else {
        level + 1
    }
}

/// The levels to write for a backlight: a neighbour first where the level is
/// held already, so that the write is not dropped.
pub fn backlight_writes(level: u8, held: Option<u8>) -> (r: Vec<u8>)
    ensures
        r@ == if held == Some(level) {
            seq![neighbour(level), level]
        } else {
            seq![level]
        },
        r@.last() == level,
        held != Some(r@[0]),
{
    let mut writes: Vec<u8> = Vec::new();
    match held {
        Some(held) => {
            if held == level {
                writes.push(next_to(level));
            }
        },
        None => {},
    }
    writes.push(level);
    writes
}

/// The levels to write for a backlight whatever is held.
pub fn forced_writes(level: u8) -> (r: Vec<u8>)
    ensures
        r@ == seq![neighbour(level), level],
        r@.len() == 2 && r@[0] != level && r@[1] == level,
{
    let mut writes: Vec<u8> = Vec::new();
    writes.push(next_to(level));
    writes.push(level);
    writes
}

/// Every write of a backlight differs from what is held before it, so that none
/// is dropped, and the last is the level itself.
pub proof fn a_backlight_write_always_arrives(level: u8)
    ensures
        neighbour(level) != level,
{
}

/// The level that a backlight's file holds.
pub fn level_in(text: &str) -> (r: Option<u8>)
    ensures
        match r {
            Some(n) => number_in(text@, 255) == Some(n as int),
            None => number_in(text@, 255) is None,
        },
{
    match read_number(text, 255) {
        Some(n) => Some(n as u8),
        None => None,
    }
}

/// Whether a key light's file says that it is lit.
pub fn lit_in(text: &str) -> (r: Option<bool>)
    ensures
        r == match number_in(text@, 0xffff_ffff) {
            Some(n) => Some(n > 0),
            None => None,
        },
{
    match read_number(text, 0xffff_ffff) {
        Some(n) => Some(n > 0),
        None => None,
    }
}

/// Whether the keys are lit at a backlight level: where they are wanted, and at
/// the level that means awake; never while the screen is dimmed or off.
pub fn keys_lit(wanted: bool, awake: u8, level: Option<u8>) -> (r: bool)
    ensures
        r == (wanted && level == Some(awake) && awake > 0),
        !wanted ==> !r,
        level != Some(awake) ==> !r,
{
    match level {
        Some(level) => wanted && level > 0 && level == awake,
        None => false,
    }
}

/// What is found where it is not what is held.
pub open spec fn correction(lit: bool, found: Option<bool>) -> Option<bool> {
    if found == Some(!lit) {
        found
    } else {
        None
    }
}

/// The state that the key lights were found in, where it is not the wanted one
/// and has to be corrected.
pub fn to_correct(lit: bool, found: Option<bool>) -> (r: Option<bool>)
    ensures
        r == correction(lit, found),
        r == match found {
            Some(found) => if found != lit {
                Some(found)
            } else {
                None
            },
            None => None,
        },
{
    match found {
        Some(found) => if found != lit {
            Some(found)
        } else {
            None
        },
        None => None,
    }
}

/// Whether a text holds another.
pub open spec fn holds(s: Seq<char>, part: Seq<char>) -> bool {
    exists|i: int| 0 <= i <= s.len() && #[trigger] begins(s.subrange(i, s.len() as int), part)
}

/// Whether the driver says that the panel is asleep.
pub fn display_asleep(status: &str) -> (r: bool)
    ensures
        r == holds(status@, "State=Sleep"@),
{
    let count: usize = status.unicode_len();
    let mut i: usize = 0;
    while i < count
        invariant
            count == status@.len(),
            i <= count,
            forall|k: int|
                0 <= k < i ==> !(#[trigger] begins(
                    status@.subrange(k, status@.len() as int),
                    "State=Sleep"@,
                )),
        decreases count - i,
    {
        if starts_with(status.substring_char(i, count), "State=Sleep") {
            return true;
        }
        i = i + 1;
    }
    proof {
        reveal_strlit("State=Sleep");
    }
    false
}

/// Whether the panel is powered down, as far as was asked.
#[derive(Clone, Copy, PartialEq, Eq, Structural, Debug)]
pub struct Standby {
    pub blanked: bool,
}

/// What comes first when the panel is powered down or up.
#[derive(Clone, Copy, PartialEq, Eq, Structural, Debug)]
pub struct Blanking {
    /// Set the processor floor for the display's state.
    pub floor: bool,
    /// Then power the panel down or up.
    pub power: bool,
}

/// What follows once the panel has been powered down or up.
#[derive(Clone, Copy, PartialEq, Eq, Structural, Debug)]
pub struct Blanked {
    /// Set the processor floor for the display's state.
    pub floor: bool,
    /// Copy the whole picture to the panel and show it.
    pub refresh: bool,
}

impl Standby {
    /// What comes first when the panel is powered down or up.
    pub open spec fn plan(self, off: bool) -> Blanking {
        Blanking { floor: !off || self.blanked, power: off != self.blanked }
    }

    /// Power the panel down or up. The floor is restored before a wake, and a
    /// repeated call only tries the floor again.
    pub fn blank(&self, off: bool) -> (r: Blanking)
        ensures
            r == self.plan(off),
    {
        Blanking { floor: !off || off == self.blanked, power: off != self.blanked }
    }

    /// The panel has been powered down or up, or could not be.
    pub fn powered(&mut self, off: bool, done: bool) -> (r: Blanked)
        ensures
            final(self).blanked == if done {
                off
            } else {
                old(self).blanked
            },
            r.floor == (done && off),
            r.refresh == (done && !off),
            !done ==> final(self).blanked == old(self).blanked && !r.floor && !r.refresh,
    {
        if done {
            self.blanked = off;
        }
        Blanked { floor: done && off, refresh: done && !off }
    }

    /// Whether to unblank, whoever put the panel to sleep. The state is brought
    /// in line with what the driver says.
    pub fn unblank_if_asleep(&mut self, asleep: bool) -> (r: bool)
        ensures
            r == (old(self).blanked || asleep),
            final(self).blanked == r,
    {
        if !self.blanked && !asleep {
            return false;
        }
        self.blanked = true;
        true
    }
}

/// A panel that is powered down keeps its floor until it is off, and one that is
/// woken has its floor back before it is on.
pub proof fn the_floor_follows_the_panel(standby: Standby)
    ensures
        !standby.blanked ==> !standby.plan(true).floor,
        standby.plan(false).floor,
        standby.plan(standby.blanked).power == false,
{
}

/// An error is said by its name, and any other by its number.
pub proof fn an_error_has_its_name(errno: i32)
    ensures
        errno_text(1) == "EPERM"@,
        errno_text(4) == "EINTR"@,
        errno_text(22) == "EINVAL"@,
        errno_text(25) == "ENOTTY"@,
        errno_text(38) == "ENOSYS"@,
        errno != 1 && errno != 4 && errno != 22 && errno != 25 && errno != 38 ==> errno_text(errno)
            == "errno "@ + signed_decimal(errno as int),
{
}

/// A wait is abandoned where it failed for good, or blocked for more than a tenth
/// of a second; one that was interrupted, or that worked, is kept.
pub proof fn a_wait_is_abandoned_when_it_breaks(pacing: Pacing, errno: i32, waited: u64)
    ensures
        waited <= 100_000_000 ==> pacing_after(pacing, None, waited) == pacing,
        waited <= 100_000_000 ==> pacing_after(pacing, Some(4), waited) == pacing,
        errno != 4 ==> pacing_after(pacing, Some(errno), waited) is Sleep,
        waited > 100_000_000 ==> pacing_after(pacing, None, waited) is Sleep,
{
}

/// Why a wait is not used: its error, or how soon it came back.
pub proof fn a_wait_says_why_it_is_not_used(name: Seq<char>, errno: i32, took: u64)
    ensures
        refusal_of(name, Err(errno)) == name + ": "@ + errno_text(errno),
        refusal_of(name, Ok(took)) == name + ": returned in "@ + hundredths_text(took as nat)
            + "ms"@,
{
}

/// The reasons are said one after another.
pub proof fn reasons_are_said_in_order(why: Seq<String>, n: int)
    requires
        0 < n <= why.len(),
    ensures
        n == 1 ==> joined(why, n) == why[0]@,
        n > 1 ==> joined(why, n) == joined(why, n - 1) + "; "@ + why[n - 1]@,
        joined(why, 0).len() == 0,
{
}

/// A number in a text is the one that is written there, up to the most that it may
/// be.
pub proof fn a_number_is_read_up_to_its_most(text: Seq<char>, n: int, most: int)
    requires
        parsed(trimmed(text)) == Some(n),
        trimmed(text)[0] != '-',
    ensures
        n <= most ==> number_in(text, most) == Some(n),
        n > most ==> number_in(text, most) is None,
{
}

/// A write of a level that is held goes by a level next to it.
pub proof fn a_neighbour_is_one_away(level: u8)
    ensures
        neighbour(level) - level == 1 || level - neighbour(level) == 1,
{
}

/// Standby switches power just where that changes something, and the floor is
/// raised before the panel comes up and let down after it has gone.
pub proof fn standby_switches_what_changes(standby: Standby, off: bool)
    ensures
        standby.plan(off).power <==> off != standby.blanked,
        standby.plan(off).floor <==> !off || standby.blanked,
{
}

/// What is held of the lights is put right exactly where they were found
/// otherwise, and then it agrees with them.
pub proof fn the_lights_are_put_right(lit: bool, found: Option<bool>)
    ensures
        correction(lit, found) is Some <==> found is Some && found->0 != lit,
        correction(lit, found) matches Some(now) ==> now == found->0 && correction(
            now,
            found,
        ) is None,
        found is None ==> correction(lit, found) is None,
{
}

} // verus!
