//! What reaches the panel: the pixels of a page, of a slide between two pages,
//! and of a rounded window that opens from one page onto another.
//!
//! Everything here is whole numbers and copies. Nothing is blended but by the
//! renderer, through [`Abgr::blend`].
use crate::num::{clamp, clamped};
use crate::rounding::{product, single_negative, times};
use vstd::prelude::*;

verus! {

/// A pixel as the panel takes it: red in the low byte.
#[derive(Clone, Copy, PartialEq, Eq, Structural, Debug)]
pub struct Abgr(pub u32);

/// The red, green and blue of a pixel.
pub open spec fn red(p: u32) -> int {
    p as int % 256
}

pub open spec fn green(p: u32) -> int {
    p as int / 256 % 256
}

pub open spec fn blue(p: u32) -> int {
    p as int / 65536 % 256
}

/// An opaque pixel of the given channels.
pub open spec fn opaque_pixel(r: int, g: int, b: int) -> int {
    0xff00_0000 + b * 65536 + g * 256 + r
}

/// What a channel comes to when a colour is laid over it; the colour's own part
/// is already scaled by its opacity.
pub open spec fn laid_over(over: u8, under: int, alpha: u8) -> int {
    over + under * (255 - alpha) / 255
}

impl Default for Abgr {
    fn default() -> (r: Abgr)
        ensures
            r == Abgr(0),
    {
        Abgr(0)
    }
}

proof fn packed(r: u32, g: u32, b: u32)
    by (bit_vector)
    requires
        r < 256,
        g < 256,
        b < 256,
    ensures
        (0xff00_0000u32 | (b << 16) | (g << 8) | r) == 0xff00_0000 + b * 65536 + g * 256 + r,
{
}

proof fn unpacked(p: u32)
    by (bit_vector)
    ensures
        p & 0xff == p % 256,
        (p >> 8) & 0xff == p / 256 % 256,
        (p >> 16) & 0xff == p / 65536 % 256,
{
}

proof fn a_layer_fits(over: u8, under: int, alpha: u8)
    requires
        over <= alpha,
        0 <= under < 256,
    ensures
        0 <= laid_over(over, under, alpha) <= 255,
{
    let clear = 255 - alpha;
    assert(under * clear <= 255 * clear) by (nonlinear_arith)
        requires
            0 <= under <= 255,
            0 <= clear,
    ;
    assert(0 <= under * clear) by (nonlinear_arith)
        requires
            0 <= under,
            0 <= clear,
    ;
}

impl Abgr {
    /// A pixel of the given colour.
    pub fn from_rgb(r: u8, g: u8, b: u8) -> (p: Abgr)
        ensures
            p.0 == opaque_pixel(r as int, g as int, b as int),
            red(p.0) == r && green(p.0) == g && blue(p.0) == b,
    {
        proof {
            packed(r as u32, g as u32, b as u32);
        }
        Abgr(0xff00_0000 | ((b as u32) << 16) | ((g as u32) << 8) | r as u32)
    }

    /// Lay a colour over the pixel. The channels of a colour that is scaled by
    /// its opacity are no larger than that, and then each stays in its byte.
    pub fn blend(&mut self, r: u8, g: u8, b: u8, alpha: u8)
        ensures
            ({
                let new_r = laid_over(r, red(old(self).0), alpha) as u32;
                let new_g = laid_over(g, green(old(self).0), alpha) as u32;
                let new_b = laid_over(b, blue(old(self).0), alpha) as u32;
                &&& final(self).0 == 0xff00_0000u32 | (new_b << 16) | (new_g << 8) | new_r
                &&& r <= alpha && g <= alpha && b <= alpha ==> final(self).0 == opaque_pixel(
                    new_r as int,
                    new_g as int,
                    new_b as int,
                )
            }),
    {
        let clear: u32 = (255 - alpha) as u32;
        let p: u32 = self.0;
        proof {
            unpacked(p);
        }
        let (under_r, under_g, under_b): (u32, u32, u32) = (
            p & 0xff,
            (p >> 8) & 0xff,
            (p >> 16) & 0xff,
        );
        assert(under_r * clear <= 65025 && under_g * clear <= 65025 && under_b * clear <= 65025)
            by (nonlinear_arith)
            requires
                under_r <= 255,
                under_g <= 255,
                under_b <= 255,
                clear <= 255,
        ;
        let new_r: u32 = r as u32 + (under_r * clear) / 255;
        let new_g: u32 = g as u32 + (under_g * clear) / 255;
        let new_b: u32 = b as u32 + (under_b * clear) / 255;
        proof {
            if r <= alpha && g <= alpha && b <= alpha {
                a_layer_fits(r, red(p), alpha);
                a_layer_fits(g, green(p), alpha);
                a_layer_fits(b, blue(p), alpha);
                packed(new_r, new_g, new_b);
            }
        }
        self.0 = 0xff00_0000 | (new_b << 16) | (new_g << 8) | new_r;
    }
}

/// A colour that is written red first as the panel takes it, opaque.
pub fn swizzled(colour: u32) -> (p: u32)
    ensures
        p == opaque_pixel(blue(colour), green(colour), red(colour)),
{
    proof {
        unpacked(colour);
        packed((colour >> 16) & 0xff, (colour >> 8) & 0xff, colour & 0xff);
    }
    assert(((colour >> 8) & 0xff) << 8 == colour & 0x00ff00) by (bit_vector);
    0xff00_0000 | ((colour & 0x0000ff) << 16) | (colour & 0x00ff00) | ((colour >> 16) & 0x0000ff)
}

/// A fully opaque colour replaces the pixel, and a fully clear one leaves its
/// channels as they are.
pub proof fn blending_keeps_its_ends(r: u8, g: u8, b: u8, under: int)
    requires
        0 <= under < 256,
    ensures
        laid_over(r, under, 255) == r,
        laid_over(0, under, 0) == under,
{
    assert(under * 255 / 255 == under);
}

/// What a frame cost, in microseconds: the drawing, and the wait after it.
#[derive(Clone, Copy, PartialEq, Eq, Structural, Debug)]
pub struct FrameCost {
    pub work_us: u64,
    pub wait_us: u64,
}

impl FrameCost {
    /// The cost of a frame that was drawn after `work_us` and over after
    /// `total_us`.
    pub fn of(work_us: u64, total_us: u64) -> (r: FrameCost)
        ensures
            r.work_us == work_us,
            r.wait_us == if total_us >= work_us {
                total_us - work_us
            } else {
                0
            },
            work_us <= total_us ==> r.work_us + r.wait_us == total_us,
    {
        FrameCost { work_us, wait_us: total_us.saturating_sub(work_us) }
    }
}

/// Where the page that arrives comes from; what is on the screen leaves the
/// other way.
#[derive(Clone, Copy, PartialEq, Eq, Structural, Debug)]
pub enum Arrive {
    FromRight,
    FromLeft,
}

/// What a transition cost, summed over its frames.
#[derive(Clone, Copy, PartialEq, Eq, Structural, Debug)]
pub struct SlideCost {
    pub frames: u64,
    pub work_us: u64,
    pub wait_us: u64,
    pub max_us: u64,
}

impl Default for SlideCost {
    fn default() -> (r: SlideCost)
        ensures
            r == (SlideCost { frames: 0, work_us: 0, wait_us: 0, max_us: 0 }),
    {
        SlideCost { frames: 0, work_us: 0, wait_us: 0, max_us: 0 }
    }
}

impl SlideCost {
    /// One frame more.
    pub fn count(&mut self, frame: FrameCost)
        requires
            old(self).frames < u64::MAX,
            old(self).work_us + frame.work_us <= u64::MAX,
            old(self).wait_us + frame.wait_us <= u64::MAX,
        ensures
            final(self).frames == old(self).frames + 1,
            final(self).work_us == old(self).work_us + frame.work_us,
            final(self).wait_us == old(self).wait_us + frame.wait_us,
            final(self).max_us == if frame.work_us > old(self).max_us {
                frame.work_us
            } else {
                old(self).max_us
            },
            final(self).max_us >= frame.work_us && final(self).max_us >= old(self).max_us,
    {
        self.frames = self.frames + 1;
        self.work_us = self.work_us + frame.work_us;
        self.wait_us = self.wait_us + frame.wait_us;
        if frame.work_us > self.max_us {
            self.max_us = frame.work_us;
        }
    }
}

/// How long a page takes to cross, and a window to open or close, in
/// milliseconds.
pub const SLIDE_MS: u64 = 180;

pub const IRIS_MS: u64 = 300;

/// Where the focus ring sits outside the window it rides, its thickness, and
/// its colour.
pub const IRIS_RING_BLEED: i32 = 6;

pub const IRIS_RING_WIDTH: i32 = 3;

pub const IRIS_RING: u32 = 0xffff_ffff;

/// A rounded window onto one page over another, in panel pixels.
#[derive(Clone, Copy, PartialEq, Eq, Structural, Debug)]
pub struct Window {
    pub x: i32,
    pub y: i32,
    pub w: i32,
    pub h: i32,
    pub r: i32,
}

impl Default for Window {
    fn default() -> (r: Window)
        ensures
            r == (Window { x: 0, y: 0, w: 0, h: 0, r: 0 }),
    {
        Window { x: 0, y: 0, w: 0, h: 0, r: 0 }
    }
}

/// How far a share of a way leads, to the nearest pixel. The share is a single,
/// by its bits, and so is the way; what does not fit stops at the ends.
pub open spec fn moved(way: int, share: u32) -> int {
    let far = product(
        (if way < 0 {
            -way
        } else {
            way
        }) as nat,
        share,
    ) as int;
    clamped(
        if (way < 0) == single_negative(share) {
            far
        } else {
            -far
        },
        i32::MIN as int,
        i32::MAX as int,
    )
}

/// A number some share of the way to another.
pub open spec fn between(a: int, b: int, share: u32) -> int {
    a + moved(b - a, share)
}

/// Whether that can be worked out: neither the way nor where it leads is out of
/// range.
pub open spec fn has_between(a: int, b: int, share: u32) -> bool {
    &&& i32::MIN <= b - a <= i32::MAX
    &&& i32::MIN <= between(a, b, share) <= i32::MAX
}

fn part_way(a: i32, b: i32, share: u32) -> (r: Option<i32>)
    ensures
        match r {
            Some(at) => has_between(a as int, b as int, share) && at == between(
                a as int,
                b as int,
                share,
            ),
            None => !has_between(a as int, b as int, share),
        },
{
    let way: i64 = b as i64 - a as i64;
    if way < i32::MIN as i64 || way > i32::MAX as i64 {
        return None;
    }
    let far: u64 = times(
        (if way < 0 {
            -way
        } else {
            way
        }) as u32,
        share,
    );
    let forward = (way < 0) == (share >= 0x8000_0000);
    let moved: i64 = if forward {
        if far > 0x7fff_ffff {
            0x7fff_ffff
        } else {
            far as i64
        }
    } else if far > 0x8000_0000 {
        -0x8000_0000
    } else {
        -(far as i64)
    };
    let at: i64 = a as i64 + moved;
    if at < i32::MIN as i64 || at > i32::MAX as i64 {
        None
    } else {
        Some(at as i32)
    }
}

impl Window {
    /// The whole panel, square-cornered.
    pub fn panel(width: u32, height: u32) -> (r: Window)
        requires
            width <= i32::MAX,
            height <= i32::MAX,
        ensures
            r == (Window { x: 0, y: 0, w: width as i32, h: height as i32, r: 0 }),
    {
        Window { x: 0, y: 0, w: width as i32, h: height as i32, r: 0 }
    }

    /// This window some share of the way to another.
    pub open spec fn spec_lerp(self, other: Window, share: u32) -> Window {
        Window {
            x: between(self.x as int, other.x as int, share) as i32,
            y: between(self.y as int, other.y as int, share) as i32,
            w: between(self.w as int, other.w as int, share) as i32,
            h: between(self.h as int, other.h as int, share) as i32,
            r: between(self.r as int, other.r as int, share) as i32,
        }
    }

    /// Whether a window that is some share of the way to another can be worked
    /// out.
    pub open spec fn can_reach(self, other: Window, share: u32) -> bool {
        &&& has_between(self.x as int, other.x as int, share)
        &&& has_between(self.y as int, other.y as int, share)
        &&& has_between(self.w as int, other.w as int, share)
        &&& has_between(self.h as int, other.h as int, share)
        &&& has_between(self.r as int, other.r as int, share)
    }

    /// This window some share of the way to another, where that can be worked
    /// out.
    pub fn towards(self, other: Window, share: u32) -> (r: Option<Window>)
        ensures
            match r {
                Some(window) => self.can_reach(other, share) && window == self.spec_lerp(
                    other,
                    share,
                ),
                None => !self.can_reach(other, share),
            },
    {
        let x = part_way(self.x, other.x, share);
        let y = part_way(self.y, other.y, share);
        let w = part_way(self.w, other.w, share);
        let h = part_way(self.h, other.h, share);
        let r = part_way(self.r, other.r, share);
        match (x, y, w, h, r) {
            (Some(x), Some(y), Some(w), Some(h), Some(r)) => Some(Window { x, y, w, h, r }),
            _ => None,
        }
    }

    /// This window some share of the way to another.
    pub fn lerp(self, other: Window, share: u32) -> (r: Window)
        requires
            self.can_reach(other, share),
        ensures
            r == self.spec_lerp(other, share),
    {
        match self.towards(other, share) {
            Some(window) => window,
            None => self,
        }
    }

    /// Whether the window can be grown by so much.
    pub open spec fn can_grow(self, n: int) -> bool {
        &&& i32::MIN <= self.x - n <= i32::MAX
        &&& i32::MIN <= self.y - n <= i32::MAX
        &&& i32::MIN <= self.w + 2 * n <= i32::MAX
        &&& i32::MIN <= self.h + 2 * n <= i32::MAX
        &&& i32::MIN <= self.r + n <= i32::MAX
        &&& i32::MIN <= 2 * n <= i32::MAX
    }

    /// The same window grown on every side, corners included.
    pub open spec fn spec_grown(self, n: int) -> Window {
        Window {
            x: (self.x - n) as i32,
            y: (self.y - n) as i32,
            w: (self.w + 2 * n) as i32,
            h: (self.h + 2 * n) as i32,
            r: (self.r + n) as i32,
        }
    }

    /// The same window grown on every side, corners included.
    pub fn grown(self, n: i32) -> (r: Window)
        requires
            self.can_grow(n as int),
        ensures
            r == self.spec_grown(n as int),
    {
        Window {
            x: self.x - n,
            y: self.y - n,
            w: self.w + 2 * n,
            h: self.h + 2 * n,
            r: self.r + n,
        }
    }

    /// Whether the window can be shrunk by so much.
    pub open spec fn can_shrink(self, n: int) -> bool {
        &&& i32::MIN <= self.x + n <= i32::MAX
        &&& i32::MIN <= self.y + n <= i32::MAX
        &&& i32::MIN <= self.w - 2 * n <= i32::MAX
        &&& i32::MIN <= self.h - 2 * n <= i32::MAX
        &&& i32::MIN <= self.r - n <= i32::MAX
        &&& i32::MIN <= 2 * n <= i32::MAX
    }

    /// The same window shrunk on every side; its corners are square at the
    /// least.
    pub open spec fn spec_shrunk(self, n: int) -> Window {
        Window {
            x: (self.x + n) as i32,
            y: (self.y + n) as i32,
            w: (self.w - 2 * n) as i32,
            h: (self.h - 2 * n) as i32,
            r: if self.r - n > 0 {
                (self.r - n) as i32
            } else {
                0
            },
        }
    }

    /// The same window shrunk on every side.
    pub fn shrunk(self, n: i32) -> (r: Window)
        requires
            self.can_shrink(n as int),
        ensures
            r == self.spec_shrunk(n as int),
    {
        let corner: i32 = self.r - n;
        Window {
            x: self.x + n,
            y: self.y + n,
            w: self.w - 2 * n,
            h: self.h - 2 * n,
            r: if corner > 0 {
                corner
            } else {
                0
            },
        }
    }
}

/// The largest whole number whose square is no larger.
pub open spec fn root(n: nat) -> nat {
    choose|k: nat| #[trigger] is_root(k, n)
}

/// Whether a number is the whole part of a square root.
pub open spec fn is_root(k: nat, n: nat) -> bool {
    k * k <= n && n < (k + 1) * (k + 1)
}

proof fn one_root(a: nat, b: nat, n: nat)
    requires
        is_root(a, n),
        is_root(b, n),
    ensures
        a == b,
{
    if a < b {
        assert((a + 1) * (a + 1) <= b * b) by (nonlinear_arith)
            requires
                a + 1 <= b,
        ;
    }
    if b < a {
        assert((b + 1) * (b + 1) <= a * a) by (nonlinear_arith)
            requires
                b + 1 <= a,
        ;
    }
}

proof fn a_root_exists(n: nat) -> (k: nat)
    ensures
        is_root(k, n),
    decreases n,
{
    if n == 0 {
        assert(0 * 0 == 0 && 0 < (0 + 1) * (0 + 1)) by (nonlinear_arith);
        assert(is_root(0, 0));
        0
    } else {
        let k = a_root_exists((n - 1) as nat);
        if (k + 1) * (k + 1) <= n {
            assert((k + 2) * (k + 2) > (k + 1) * (k + 1)) by (nonlinear_arith);
            assert((k + 1 + 1) * (k + 1 + 1) == (k + 2) * (k + 2));
            assert(is_root(k + 1, n));
            k + 1
        } else {
            assert(is_root(k, n));
            k
        }
    }
}

proof fn root_is_one(n: nat)
    ensures
        is_root(root(n), n),
{
    let k = a_root_exists(n);
    assert(is_root(k, n));
}

proof fn roots_grow(a: nat, b: nat)
    requires
        a <= b,
    ensures
        root(a) <= root(b),
{
    root_is_one(a);
    root_is_one(b);
    let (k, m) = (root(a), root(b));
    if m < k {
        assert((m + 1) * (m + 1) <= k * k) by (nonlinear_arith)
            requires
                m + 1 <= k,
        ;
    }
}

/// The whole part of a square root.
pub fn isqrt(n: u64) -> (r: u64)
    ensures
        r == root(n as nat),
        is_root(r as nat, n as nat),
{
    let mut k: u64 = 0;
    assert(0 * 0 == 0) by (nonlinear_arith);
    while (k as u128 + 1) * (k as u128 + 1) <= n as u128
        invariant
            k * k <= n,
            k <= 0xffff_ffff,
            (k + 1) * (k + 1) <= 0x1_0000_0000_0000_0000,
        decreases n - k,
    {
        assert(k < n) by (nonlinear_arith)
            requires
                (k + 1) * (k + 1) <= n,
        ;
        assert(k + 1 <= 0xffff_ffff) by (nonlinear_arith)
            requires
                (k + 1) * (k + 1) <= n,
                n <= 0xffff_ffff_ffff_ffff,
                k >= 0,
        ;
        k = k + 1;
        assert((k + 1) * (k + 1) <= 0x1_0000_0000_0000_0000) by (nonlinear_arith)
            requires
                k <= 0xffff_ffff,
        ;
    }
    proof {
        root_is_one(n as nat);
        assert(is_root(k as nat, n as nat));
        one_root(k as nat, root(n as nat), n as nat);
    }
    k
}

/// The radius that a window's corners have: no more than half of its shorter
/// side.
pub open spec fn corner(window: Window) -> int {
    let side = if window.w < window.h {
        window.w as int
    } else {
        window.h as int
    };
    clamped(window.r as int, 0, side / 2)
}

/// How far a row is past the centres of the corner circles, times two.
pub open spec fn past_centre(window: Window, y: int) -> int {
    let above = 2 * (window.y + corner(window)) - (2 * y + 1);
    let below = (2 * y + 1) - 2 * (window.y + window.h - corner(window));
    if above > below {
        above
    } else {
        below
    }
}

/// How far a corner of radius `r` cuts into a row, to the nearest pixel.
pub open spec fn cut(r: int, over: int) -> int {
    if r > 0 && over > 0 {
        (4 * r - root((16 * (r * r) - 4 * (over * over)) as nat) + 2) / 4
    } else {
        0
    }
}

/// Whether a row crosses the window.
pub open spec fn crosses(window: Window, y: int) -> bool {
    window.w > 0 && window.h > 0 && window.y <= y < window.y + window.h
}

/// Where the window begins and ends on a row that crosses it, on an endless
/// panel.
pub open spec fn left_edge(window: Window, y: int) -> int {
    window.x + cut(corner(window), past_centre(window, y))
}

pub open spec fn right_edge(window: Window, y: int) -> int {
    window.x + window.w - cut(corner(window), past_centre(window, y))
}

/// The run of the window on one row of a panel, where there is any.
pub open spec fn run(window: Window, y: int, width: int) -> Option<(int, int)> {
    let left = clamped(left_edge(window, y), 0, width);
    let right = clamped(right_edge(window, y), left, width);
    if crosses(window, y) && left < right {
        Some((left, right))
    } else {
        None
    }
}

/// Whether a pixel is seen through the window.
pub open spec fn seen(window: Window, x: int, y: int, width: int) -> bool {
    run(window, y, width) matches Some((left, right)) && left <= x < right
}

/// A row that crosses the window is less than a radius past a corner's centre.
proof fn a_row_is_in_its_corner(window: Window, y: int)
    requires
        crosses(window, y),
    ensures
        0 <= corner(window),
        2 * corner(window) <= window.w,
        2 * corner(window) <= window.h,
        past_centre(window, y) < 2 * corner(window) || past_centre(window, y) <= 0,
{
}

proof fn a_corner_is_bounded(r: int, over: int)
    requires
        0 < r,
        0 < over < 2 * r,
    ensures
        0 <= 16 * (r * r) - 4 * (over * over),
        root((16 * (r * r) - 4 * (over * over)) as nat) <= 4 * r,
        0 <= cut(r, over) <= r,
{
    let n = (16 * (r * r) - 4 * (over * over)) as nat;
    assert(over * over <= 4 * (r * r) && 0 <= over * over) by (nonlinear_arith)
        requires
            0 < over < 2 * r,
    ;
    root_is_one(n);
    let k = root(n);
    assert(k <= 4 * r) by (nonlinear_arith)
        requires
            k * k <= n,
            n <= 16 * (r * r),
            r > 0,
            k >= 0,
    ;
}

/// How far a corner of radius `r` cuts into a row.
fn cut_of(r: i64, over: i64) -> (inset: i64)
    requires
        0 <= r <= 0x3fff_ffff,
        over < 2 * r || over <= 0,
    ensures
        inset == cut(r as int, over as int),
        0 <= inset <= r,
{
    if r == 0 || over <= 0 {
        return 0;
    }
    proof {
        a_corner_is_bounded(r as int, over as int);
    }
    assert(0 <= r * r <= 0x3fff_ffff * 0x3fff_ffff && 0 <= over * over <= 0x8000_0000 * 0x8000_0000)
        by (nonlinear_arith)
        requires
            0 < r <= 0x3fff_ffff,
            0 < over < 0x8000_0000,
    ;
    let (far, near): (i128, i128) = (r as i128 * r as i128, over as i128 * over as i128);
    let half: u64 = isqrt((16 * far - 4 * near) as u64);
    (4 * r - half as i64 + 2) / 4
}

/// How far the corners cut into a row that crosses the window.
fn inset_at(window: Window, y: i64) -> (inset: i64)
    requires
        crosses(window, y as int),
    ensures
        inset == cut(corner(window), past_centre(window, y as int)),
        0 <= inset <= window.w,
{
    let side: i64 = if window.w < window.h {
        window.w as i64
    } else {
        window.h as i64
    };
    let r: i64 = clamp(window.r as i64, 0, side / 2);
    let above: i64 = 2 * (window.y as i64 + r) - (2 * y + 1);
    let below: i64 = (2 * y + 1) - 2 * (window.y as i64 + window.h as i64 - r);
    proof {
        a_row_is_in_its_corner(window, y as int);
    }
    if above > below {
        cut_of(r, above)
    } else {
        cut_of(r, below)
    }
}

/// The run of the window on one row of a panel, where there is any: inset at the
/// corners, and held within the panel.
pub fn window_run(window: Window, y: i64, width: usize) -> (r: Option<(usize, usize)>)
    ensures
        match r {
            Some((left, right)) => run(window, y as int, width as int) == Some(
                (left as int, right as int),
            ) && left < right <= width,
            None => run(window, y as int, width as int) is None,
        },
{
    if window.w <= 0 || window.h <= 0 || y < window.y as i64 || y >= window.y as i64
        + window.h as i64 {
        return None;
    }
    let inset: i64 = inset_at(window, y);
    let edge: i64 = if width as u64 > 0x1_0000_0000 {
        0x1_0000_0000
    } else {
        width as i64
    };
    let left: i64 = clamp(window.x as i64 + inset, 0, edge);
    let right: i64 = clamp(window.x as i64 + window.w as i64 - inset, left, edge);
    if left < right {
        Some((left as usize, right as usize))
    } else {
        None
    }
}

/// A smaller circle with the same centre cuts in at least as far.
proof fn a_smaller_corner_lies_within(r: int, t: int, over: int)
    requires
        0 <= t,
        0 < r - t,
        0 < over < 2 * (r - t),
    ensures
        cut(r, over) <= t + cut(r - t, over),
{
    let s = r - t;
    a_corner_is_bounded(r, over);
    a_corner_is_bounded(s, over);
    assert(s * s <= r * r) by (nonlinear_arith)
        requires
            0 < s <= r,
    ;
    roots_grow(
        (16 * (s * s) - 4 * (over * over)) as nat,
        (16 * (r * r) - 4 * (over * over)) as nat,
    );
}

/// On every row, a shrunk window lies within the window it was shrunk from.
proof fn a_shrunk_window_lies_within(outer: Window, t: int, y: int)
    requires
        0 <= t,
        outer.can_shrink(t),
        crosses(outer.spec_shrunk(t), y),
    ensures
        crosses(outer, y),
        left_edge(outer, y) <= left_edge(outer.spec_shrunk(t), y),
        right_edge(outer.spec_shrunk(t), y) <= right_edge(outer, y),
{
    let inner = outer.spec_shrunk(t);
    a_row_is_in_its_corner(outer, y);
    a_row_is_in_its_corner(inner, y);
    let (r, s) = (corner(outer), corner(inner));
    let over = past_centre(outer, y);
    if r > 0 && over > 0 {
        a_corner_is_bounded(r, over);
    }
    if r - t > 0 {
        assert(s == r - t);
        assert(past_centre(inner, y) == over);
        if over > 0 {
            a_smaller_corner_lies_within(r, t, over);
        }
    } else {
        assert(s == 0);
        assert(cut(r, over) <= t);
    }
}

/// A pixel that is seen through a shrunk window is seen through the window that
/// it was shrunk from.
pub proof fn a_shrunk_window_shows_less(outer: Window, t: int, x: int, y: int, width: int)
    requires
        0 <= t,
        outer.can_shrink(t),
        width >= 0,
        seen(outer.spec_shrunk(t), x, y, width),
    ensures
        seen(outer, x, y, width),
{
    a_shrunk_window_lies_within(outer, t, y);
}

/// A window shows only what lies in its own rectangle and on the panel.
pub proof fn a_window_shows_its_rectangle(window: Window, x: int, y: int, width: int)
    requires
        width >= 0,
        seen(window, x, y, width),
    ensures
        window.x <= x < window.x + window.w,
        window.y <= y < window.y + window.h,
        0 <= x < width,
{
    a_row_is_in_its_corner(window, y);
    let (r, over) = (corner(window), past_centre(window, y));
    if r > 0 && over > 0 {
        a_corner_is_bounded(r, over);
    }
}

/// A square-cornered window shows the whole of its rectangle.
pub proof fn a_square_window_shows_all_of_it(window: Window, x: int, y: int, width: int)
    requires
        window.r <= 0,
        0 <= x < width,
        window.x <= x < window.x + window.w,
        window.y <= y < window.y + window.h,
    ensures
        seen(window, x, y, width),
{
}

/// A row's mirror image in the window has the same run.
pub proof fn a_window_is_the_same_upside_down(window: Window, k: int, width: int)
    ensures
        run(window, window.y + k, width) == run(window, window.y + window.h - 1 - k, width),
{
}

/// Somewhere to compose into. The framebuffer's rows may be wider than the
/// panel.
pub struct Surface<'a> {
    pub pixels: &'a mut [u32],
    pub stride: usize,
    pub width: usize,
    pub height: usize,
}

impl<'a> Surface<'a> {
    /// Every row of the panel lies within the buffer.
    pub open spec fn wf(self) -> bool {
        &&& self.width <= self.stride
        &&& self.height > 0 ==> (self.height - 1) * self.stride + self.width <= self.pixels@.len()
    }
}

/// Whether the pixel at a place of the buffer comes before a place of the panel,
/// row by row.
pub open spec fn comes_before(i: int, stride: int, width: int, x: int, y: int) -> bool {
    0 < width && i % stride < width && (i / stride < y || i / stride == y && i % stride < x)
}

/// Whether a buffer is what another was with the panel painted up to a place,
/// row by row. A pixel that has no paint, and what lies beside or below the
/// panel, stays.
pub open spec fn painted_to(
    old: Seq<u32>,
    new: Seq<u32>,
    stride: int,
    width: int,
    x: int,
    y: int,
    paint: spec_fn(int, int) -> Option<u32>,
) -> bool {
    &&& new.len() == old.len()
    &&& forall|i: int|
        0 <= i < old.len() ==> #[trigger] new[i] == if comes_before(i, stride, width, x, y) {
            match paint(i % stride, i / stride) {
                Some(p) => p,
                None => old[i],
            }
        } else {
            old[i]
        }
}

/// Whether a buffer is what another was with the whole panel painted.
pub open spec fn painted(
    old: Seq<u32>,
    new: Seq<u32>,
    stride: int,
    width: int,
    height: int,
    paint: spec_fn(int, int) -> Option<u32>,
) -> bool {
    painted_to(old, new, stride, width, 0, height, paint)
}

proof fn a_place_reads_back(x: int, y: int, stride: int)
    requires
        0 <= x < stride,
        0 <= y,
    ensures
        (y * stride + x) % stride == x,
        (y * stride + x) / stride == y,
{
    vstd::arithmetic::div_mod::lemma_fundamental_div_mod_converse(y * stride + x, stride, y, x);
}

proof fn a_place_is_one_pixel(i: int, x: int, y: int, stride: int)
    requires
        0 < stride,
        i % stride == x,
        i / stride == y,
    ensures
        i == y * stride + x,
{
    vstd::arithmetic::div_mod::lemma_fundamental_div_mod(i, stride);
    assert(stride * y == y * stride) by (nonlinear_arith);
}

proof fn a_row_is_within(y: int, stride: int, width: int, height: int, len: int)
    requires
        0 <= y < height,
        0 <= stride,
        (height - 1) * stride + width <= len,
    ensures
        0 <= y * stride,
        y * stride + width <= len,
{
    assert(0 <= y * stride <= (height - 1) * stride) by (nonlinear_arith)
        requires
            0 <= y <= height - 1,
            0 <= stride,
    ;
}

proof fn nothing_is_painted(old: Seq<u32>, stride: int, width: int, paint: spec_fn(int, int) -> Option<u32>)
    requires
        width <= stride,
    ensures
        painted_to(old, old, stride, width, 0, 0, paint),
{
    assert forall|i: int| 0 <= i < old.len() implies !comes_before(i, stride, width, 0, 0) by {
        if 0 < width {
            vstd::arithmetic::div_mod::lemma_mod_bound(i, stride);
            vstd::arithmetic::div_mod::lemma_div_pos_is_pos(i, stride);
        }
    }
}

/// One more pixel is painted, or stays where it has no paint.
proof fn a_pixel_is_painted(
    old: Seq<u32>,
    before: Seq<u32>,
    after: Seq<u32>,
    stride: int,
    width: int,
    x: int,
    y: int,
    paint: spec_fn(int, int) -> Option<u32>,
)
    requires
        painted_to(old, before, stride, width, x, y, paint),
        0 <= x < width <= stride,
        0 <= y,
        y * stride + x < old.len(),
        after == match paint(x, y) {
            Some(p) => before.update(y * stride + x, p),
            None => before,
        },
    ensures
        painted_to(old, after, stride, width, x + 1, y, paint),
{
    let place = y * stride + x;
    assert(0 <= place) by (nonlinear_arith)
        requires
            0 <= x,
            0 <= y,
            0 < stride,
            place == y * stride + x,
    ;
    a_place_reads_back(x, y, stride);
    assert forall|i: int| 0 <= i < old.len() implies #[trigger] after[i] == (if comes_before(
        i,
        stride,
        width,
        x + 1,
        y,
    ) {
        match paint(i % stride, i / stride) {
            Some(p) => p,
            None => old[i],
        }
    } else {
        old[i]
    }) by {
        assert(before[i] == if comes_before(i, stride, width, x, y) {
            match paint(i % stride, i / stride) {
                Some(p) => p,
                None => old[i],
            }
        } else {
            old[i]
        });
        if i != place {
            if i % stride == x && i / stride == y {
                a_place_is_one_pixel(i, x, y, stride);
            }
        }
    }
}

/// A row that is painted to its end leaves the next one to paint.
proof fn a_row_is_painted(
    old: Seq<u32>,
    new: Seq<u32>,
    stride: int,
    width: int,
    y: int,
    paint: spec_fn(int, int) -> Option<u32>,
)
    requires
        width <= stride,
        painted_to(old, new, stride, width, width, y, paint),
    ensures
        painted_to(old, new, stride, width, 0, y + 1, paint),
{
    assert forall|i: int| 0 <= i < old.len() implies comes_before(i, stride, width, width, y)
        == comes_before(i, stride, width, 0, y + 1) by {
        if 0 < width {
            vstd::arithmetic::div_mod::lemma_mod_bound(i, stride);
        }
    }
}

/// What one page seen through a window in another puts at each pixel.
pub open spec fn through(outside: Seq<u32>, inside: Seq<u32>, window: Window, width: int) -> spec_fn(
    int,
    int,
) -> Option<u32> {
    |x: int, y: int|
        Some(
            if seen(window, x, y, width) {
                inside[y * width + x]
            } else {
                outside[y * width + x]
            },
        )
}

/// Whether a page has a pixel for each of the panel's.
pub open spec fn covers(page: Seq<u32>, width: int, height: int) -> bool {
    width * height <= page.len()
}

proof fn a_page_has_the_pixel(page: Seq<u32>, width: int, height: int, x: int, y: int)
    requires
        covers(page, width, height),
        0 <= x < width,
        0 <= y < height,
    ensures
        0 <= y * width,
        y * width + x < page.len(),
{
    assert(0 <= y * width && y * width + width <= width * height) by (nonlinear_arith)
        requires
            0 <= y <= height - 1,
            0 <= width,
    ;
}

/// The run of a window on a row of the panel, by the row's place.
fn row_run(window: Window, y: usize, width: usize) -> (r: Option<(usize, usize)>)
    ensures
        match r {
            Some((left, right)) => run(window, y as int, width as int) == Some(
                (left as int, right as int),
            ),
            None => run(window, y as int, width as int) is None,
        },
{
    if y as u64 > 0xffff_ffff {
        return None;
    }
    window_run(window, y as i64, width)
}

/// The extent of a surface.
#[derive(Clone, Copy, PartialEq, Eq, Structural, Debug)]
pub struct Extent {
    pub stride: usize,
    pub width: usize,
    pub height: usize,
}

impl<'a> Surface<'a> {
    /// The surface's extent.
    pub open spec fn extent(self) -> Extent {
        Extent { stride: self.stride, width: self.width, height: self.height }
    }

    /// Whether the surface is what a buffer was with the panel painted up to a
    /// place.
    pub open spec fn is_painted_to(
        self,
        start: Seq<u32>,
        x: int,
        y: int,
        paint: spec_fn(int, int) -> Option<u32>,
    ) -> bool {
        painted_to(start, self.pixels@, self.stride as int, self.width as int, x, y, paint)
    }

    /// Whether the surface is what a buffer was with the whole panel painted.
    pub open spec fn is_painted(
        self,
        start: Seq<u32>,
        paint: spec_fn(int, int) -> Option<u32>,
    ) -> bool {
        self.is_painted_to(start, 0, self.height as int, paint)
    }
}

/// Paint the next pixel, or leave it where it has no paint.
fn put(
    dst: &mut Surface<'_>,
    x: usize,
    y: usize,
    p: Option<u32>,
    Ghost(start): Ghost<Seq<u32>>,
    Ghost(paint): Ghost<spec_fn(int, int) -> Option<u32>>,
)
    requires
        old(dst).wf(),
        x < old(dst).width,
        y < old(dst).height,
        old(dst).is_painted_to(start, x as int, y as int, paint),
        p == paint(x as int, y as int),
    ensures
        final(dst).wf(),
        final(dst).extent() == old(dst).extent(),
        final(dst).is_painted_to(start, x + 1, y as int, paint),
{
    let ghost before = dst.pixels@;
    let stride: usize = dst.stride;
    let len: usize = dst.pixels.len();
    proof {
        a_row_is_within(
            y as int,
            stride as int,
            dst.width as int,
            dst.height as int,
            len as int,
        );
    }
    match p {
        Some(p) => {
            let place: usize = y * stride + x;
            dst.pixels[place] = p;
        },
        None => {},
    }
    proof {
        a_pixel_is_painted(
            start,
            before,
            dst.pixels@,
            stride as int,
            dst.width as int,
            x as int,
            y as int,
            paint,
        );
    }
}

/// One page seen through a window, and another around it.
pub fn compose_window(dst: &mut Surface<'_>, outside: &[u32], inside: &[u32], window: Window)
    requires
        old(dst).wf(),
        covers(outside@, old(dst).width as int, old(dst).height as int),
        covers(inside@, old(dst).width as int, old(dst).height as int),
    ensures
        final(dst).is_painted(
            old(dst).pixels@,
            through(outside@, inside@, window, old(dst).width as int),
        ),
        final(dst).wf(),
        final(dst).extent() == old(dst).extent(),
{
    let (w, h): (usize, usize) = (dst.width, dst.height);
    let count: usize = outside.len();
    let ghost extent = dst.extent();
    let ghost start = dst.pixels@;
    let ghost paint = through(outside@, inside@, window, w as int);
    proof {
        nothing_is_painted(start, dst.stride as int, w as int, paint);
    }
    let mut y: usize = 0;
    while y < h
        invariant
            y <= h,
            dst.wf(),
            dst.extent() == extent,
            extent.width == w && extent.height == h,
            covers(outside@, w as int, h as int),
            covers(inside@, w as int, h as int),
            count == outside@.len(),
            paint == through(outside@, inside@, window, w as int),
            dst.is_painted_to(start, 0, y as int, paint),
        decreases h - y,
    {
        let here = row_run(window, y, w);
        let mut x: usize = 0;
        while x < w
            invariant
                x <= w,
                y < h,
                dst.wf(),
                dst.extent() == extent,
                extent.width == w && extent.height == h,
                covers(outside@, w as int, h as int),
                covers(inside@, w as int, h as int),
                count == outside@.len(),
                paint == through(outside@, inside@, window, w as int),
                match here {
                    Some((left, right)) => run(window, y as int, w as int) == Some(
                        (left as int, right as int),
                    ),
                    None => run(window, y as int, w as int) is None,
                },
                dst.is_painted_to(start, x as int, y as int, paint),
            decreases w - x,
        {
            proof {
                a_page_has_the_pixel(outside@, w as int, h as int, x as int, y as int);
                a_page_has_the_pixel(inside@, w as int, h as int, x as int, y as int);
            }
            let shown = match here {
                Some((left, right)) => left <= x && x < right,
                None => false,
            };
            let from: usize = y * w + x;
            let p: u32 = if shown {
                inside[from]
            } else {
                outside[from]
            };
            put(dst, x, y, Some(p), Ghost(start), Ghost(paint));
            x = x + 1;
        }
        proof {
            a_row_is_painted(start, dst.pixels@, dst.stride as int, w as int, y as int, paint);
        }
        y = y + 1;
    }
}

/// Whether a pixel lies on the outline of a window: within it, and outside the
/// same window that much smaller.
pub open spec fn on_outline(outer: Window, thickness: int, x: int, y: int, width: int) -> bool {
    seen(outer, x, y, width) && !seen(outer.spec_shrunk(thickness), x, y, width)
}

/// What the outline of a window puts at each pixel.
pub open spec fn outline(outer: Window, thickness: int, colour: u32, width: int) -> spec_fn(
    int,
    int,
) -> Option<u32> {
    |x: int, y: int|
        if on_outline(outer, thickness, x, y, width) {
            Some(colour)
        } else {
            None
        }
}

/// The outline of a rounded window in one colour. Filled rather than blended.
pub fn stroke_window(dst: &mut Surface<'_>, outer: Window, thickness: i32, colour: u32)
    requires
        old(dst).wf(),
        outer.can_shrink(thickness as int),
    ensures
        final(dst).is_painted(
            old(dst).pixels@,
            outline(outer, thickness as int, colour, old(dst).width as int),
        ),
        final(dst).wf(),
        final(dst).extent() == old(dst).extent(),
{
    let (w, h): (usize, usize) = (dst.width, dst.height);
    let inner = outer.shrunk(thickness);
    let ghost extent = dst.extent();
    let ghost start = dst.pixels@;
    let ghost paint = outline(outer, thickness as int, colour, w as int);
    proof {
        nothing_is_painted(start, dst.stride as int, w as int, paint);
    }
    let mut y: usize = 0;
    while y < h
        invariant
            y <= h,
            dst.wf(),
            dst.extent() == extent,
            extent.width == w && extent.height == h,
            inner == outer.spec_shrunk(thickness as int),
            paint == outline(outer, thickness as int, colour, w as int),
            dst.is_painted_to(start, 0, y as int, paint),
        decreases h - y,
    {
        let around = row_run(outer, y, w);
        let within = row_run(inner, y, w);
        let mut x: usize = 0;
        while x < w
            invariant
                x <= w,
                y < h,
                dst.wf(),
                dst.extent() == extent,
                extent.width == w && extent.height == h,
                inner == outer.spec_shrunk(thickness as int),
                paint == outline(outer, thickness as int, colour, w as int),
                match around {
                    Some((left, right)) => run(outer, y as int, w as int) == Some(
                        (left as int, right as int),
                    ),
                    None => run(outer, y as int, w as int) is None,
                },
                match within {
                    Some((left, right)) => run(inner, y as int, w as int) == Some(
                        (left as int, right as int),
                    ),
                    None => run(inner, y as int, w as int) is None,
                },
                dst.is_painted_to(start, x as int, y as int, paint),
            decreases w - x,
        {
            let outside = match around {
                Some((left, right)) => left <= x && x < right,
                None => false,
            };
            let inside = match within {
                Some((left, right)) => left <= x && x < right,
                None => false,
            };
            let p: Option<u32> = if outside && !inside {
                Some(colour)
            } else {
                None
            };
            put(dst, x, y, p, Ghost(start), Ghost(paint));
            x = x + 1;
        }
        proof {
            a_row_is_painted(start, dst.pixels@, dst.stride as int, w as int, y as int, paint);
        }
        y = y + 1;
    }
}

/// Which page an iris shows inside its window; the other one surrounds it.
#[derive(Clone, Copy, PartialEq, Eq, Structural, Debug)]
pub enum Shown {
    /// The page that is arrived at: a screen that opens out of its row.
    Arriving,
    /// The page that the panel shows already: that screen closing onto the row.
    Leaving,
}

/// What a page puts at each pixel.
pub open spec fn page(pixels: Seq<u32>, width: int) -> spec_fn(int, int) -> Option<u32> {
    |x: int, y: int| Some(pixels[y * width + x])
}

/// What an iris puts at each pixel on its way: the ring on the window's edge,
/// one page through the window, and the other around it.
pub open spec fn iris(
    arriving: Seq<u32>,
    leaving: Seq<u32>,
    window: Window,
    shown: Shown,
    width: int,
) -> spec_fn(int, int) -> Option<u32> {
    |x: int, y: int|
        Some(
            if on_outline(
                window.spec_grown(IRIS_RING_BLEED as int),
                IRIS_RING_WIDTH as int,
                x,
                y,
                width,
            ) {
                IRIS_RING
            } else if seen(window, x, y, width) == (shown == Shown::Arriving) {
                arriving[y * width + x]
            } else {
                leaving[y * width + x]
            },
        )
}

/// Whether a frame of an iris on its way can be drawn: the window that it has
/// then, and the ring around it, can be worked out.
pub open spec fn can_travel(travel: (Window, Window), share: u32) -> bool {
    &&& travel.0.can_reach(travel.1, share)
    &&& travel.0.spec_lerp(travel.1, share).can_grow(IRIS_RING_BLEED as int)
}

/// Whether a frame of an iris on its way can be drawn.
pub fn travels(travel: (Window, Window), share: u32) -> (r: bool)
    ensures
        r == can_travel(travel, share),
{
    let n: i32 = IRIS_RING_BLEED;
    match travel.0.towards(travel.1, share) {
        Some(w) => w.x >= i32::MIN + n && w.y >= i32::MIN + n && w.w <= i32::MAX - 2 * n && w.h
            <= i32::MAX - 2 * n && w.r <= i32::MAX - n,
        None => false,
    }
}

/// What is painted over what was painted.
proof fn paint_over_paint(
    start: Seq<u32>,
    middle: Seq<u32>,
    end: Seq<u32>,
    stride: int,
    width: int,
    height: int,
    first: spec_fn(int, int) -> Option<u32>,
    second: spec_fn(int, int) -> Option<u32>,
    both: spec_fn(int, int) -> Option<u32>,
)
    requires
        painted(start, middle, stride, width, height, first),
        painted(middle, end, stride, width, height, second),
        forall|x: int, y: int| #[trigger]
            both(x, y) == if second(x, y) is Some {
                second(x, y)
            } else {
                first(x, y)
            },
    ensures
        painted(start, end, stride, width, height, both),
{
    assert forall|i: int| 0 <= i < start.len() implies #[trigger] end[i] == (if comes_before(
        i,
        stride,
        width,
        0,
        height,
    ) {
        match both(i % stride, i / stride) {
            Some(p) => p,
            None => start[i],
        }
    } else {
        start[i]
    }) by {
        assert(middle[i] == middle[i]);
        assert(both(i % stride, i / stride) == both(i % stride, i / stride));
    }
}

/// Two paints that agree on the panel paint the same.
proof fn the_same_paint(
    start: Seq<u32>,
    end: Seq<u32>,
    stride: int,
    width: int,
    height: int,
    one: spec_fn(int, int) -> Option<u32>,
    other: spec_fn(int, int) -> Option<u32>,
)
    requires
        painted(start, end, stride, width, height, one),
        forall|x: int, y: int| #[trigger] one(x, y) == other(x, y),
    ensures
        painted(start, end, stride, width, height, other),
{
    assert forall|i: int| 0 <= i < start.len() implies #[trigger] end[i] == (if comes_before(
        i,
        stride,
        width,
        0,
        height,
    ) {
        match other(i % stride, i / stride) {
            Some(p) => p,
            None => start[i],
        }
    } else {
        start[i]
    }) by {
        assert(one(i % stride, i / stride) == other(i % stride, i / stride));
    }
}

/// One frame of an iris, some share of the way; the share is a single, by its
/// bits. The last frame is the page that arrives, whole, wherever the window
/// was going.
pub fn iris_frame(
    dst: &mut Surface<'_>,
    arriving: &[u32],
    leaving: &[u32],
    travel: (Window, Window),
    shown: Shown,
    share: u32,
    last: bool,
)
    requires
        old(dst).wf(),
        covers(arriving@, old(dst).width as int, old(dst).height as int),
        covers(leaving@, old(dst).width as int, old(dst).height as int),
        !last ==> can_travel(travel, share),
    ensures
        final(dst).is_painted(
            old(dst).pixels@,
            if last {
                page(arriving@, old(dst).width as int)
            } else {
                iris(
                    arriving@,
                    leaving@,
                    travel.0.spec_lerp(travel.1, share),
                    shown,
                    old(dst).width as int,
                )
            },
        ),
        final(dst).wf(),
        final(dst).extent() == old(dst).extent(),
{
    let ghost start = dst.pixels@;
    let ghost (stride, w, h) = (dst.stride as int, dst.width as int, dst.height as int);
    if last {
        let nothing = Window { x: 0, y: 0, w: 0, h: 0, r: 0 };
        compose_window(dst, arriving, arriving, nothing);
        proof {
            the_same_paint(
                start,
                dst.pixels@,
                stride,
                w,
                h,
                through(arriving@, arriving@, nothing, w),
                page(arriving@, w),
            );
        }
        return ;
    }
    let window = travel.0.lerp(travel.1, share);
    let (outside, inside) = match shown {
        Shown::Arriving => (leaving, arriving),
        Shown::Leaving => (arriving, leaving),
    };
    compose_window(dst, outside, inside, window);
    let ghost middle = dst.pixels@;
    let ring = window.grown(IRIS_RING_BLEED);
    stroke_window(dst, ring, IRIS_RING_WIDTH, IRIS_RING);
    proof {
        paint_over_paint(
            start,
            middle,
            dst.pixels@,
            stride,
            w,
            h,
            through(outside@, inside@, window, w),
            outline(ring, IRIS_RING_WIDTH as int, IRIS_RING, w),
            iris(arriving@, leaving@, window, shown, w),
        );
    }
}

/// How far a page has slid: a share of the width, which is a single by its bits,
/// and all the way at the end.
pub fn slide_offset(width: u32, share: u32, last: bool) -> (dx: usize)
    ensures
        dx == if last {
            clamped(width as int, 0, usize::MAX as int)
        } else if single_negative(share) {
            0
        } else {
            clamped(product(width as nat, share) as int, 0, usize::MAX as int)
        },
        last ==> dx == width || dx == usize::MAX,
{
    if last {
        width as usize
    } else if share >= 0x8000_0000 {
        0
    } else {
        let far: u64 = times(width, share);
        if far > usize::MAX as u64 {
            usize::MAX
        } else {
            far as usize
        }
    }
}

/// Whether a row lies in one of the bands, each a top and a height.
pub open spec fn kept(bands: Seq<(u32, u32)>, y: int) -> bool {
    exists|k: int| 0 <= k < bands.len() && (#[trigger] bands[k]).0 <= y < bands[k].0 + bands[k].1
}

fn is_kept(bands: &[(u32, u32)], y: usize) -> (r: bool)
    ensures
        r == kept(bands@, y as int),
{
    let mut k: usize = 0;
    while k < bands.len()
        invariant
            k <= bands@.len(),
            forall|j: int|
                0 <= j < k ==> !((#[trigger] bands@[j]).0 <= y < bands@[j].0 + bands@[j].1),
        decreases bands@.len() - k,
    {
        let (top, height): (u32, u32) = bands[k];
        if y as u64 >= top as u64 && (y as u64) < top as u64 + height as u64 {
            assert(bands@[k as int].0 <= y < bands@[k as int].0 + bands@[k as int].1);
            return true;
        }
        k = k + 1;
    }
    false
}

/// What a slide puts at each pixel: the old page `dx` pixels out of the way, the
/// new one in what it uncovered, and the bands that do not travel from the new
/// one throughout.
pub open spec fn slide(
    old_page: Seq<u32>,
    new_page: Seq<u32>,
    from: Arrive,
    dx: int,
    bands: Seq<(u32, u32)>,
    width: int,
) -> spec_fn(int, int) -> Option<u32> {
    |x: int, y: int|
        Some(
            if kept(bands, y) {
                new_page[y * width + x]
            } else {
                match from {
                    Arrive::FromRight => if x + dx < width {
                        old_page[y * width + x + dx]
                    } else {
                        new_page[y * width + x + dx - width]
                    },
                    Arrive::FromLeft => if x < dx {
                        new_page[y * width + width - dx + x]
                    } else {
                        old_page[y * width + x - dx]
                    },
                }
            },
        )
}

/// One frame of a slide.
pub fn compose(
    dst: &mut Surface<'_>,
    old_page: &[u32],
    new_page: &[u32],
    from: Arrive,
    dx: usize,
    keep: &[(u32, u32)],
)
    requires
        old(dst).wf(),
        covers(old_page@, old(dst).width as int, old(dst).height as int),
        covers(new_page@, old(dst).width as int, old(dst).height as int),
    ensures
        final(dst).is_painted(
            old(dst).pixels@,
            slide(
                old_page@,
                new_page@,
                from,
                if dx < old(dst).width {
                    dx as int
                } else {
                    old(dst).width as int
                },
                keep@,
                old(dst).width as int,
            ),
        ),
        final(dst).wf(),
        final(dst).extent() == old(dst).extent(),
{
    let (w, h): (usize, usize) = (dst.width, dst.height);
    let dx: usize = if dx < w {
        dx
    } else {
        w
    };
    let count: usize = old_page.len();
    let ghost extent = dst.extent();
    let ghost start = dst.pixels@;
    let ghost paint = slide(old_page@, new_page@, from, dx as int, keep@, w as int);
    proof {
        nothing_is_painted(start, dst.stride as int, w as int, paint);
    }
    let mut y: usize = 0;
    while y < h
        invariant
            y <= h,
            dx <= w,
            dst.wf(),
            dst.extent() == extent,
            extent.width == w && extent.height == h,
            covers(old_page@, w as int, h as int),
            covers(new_page@, w as int, h as int),
            count == old_page@.len(),
            paint == slide(old_page@, new_page@, from, dx as int, keep@, w as int),
            dst.is_painted_to(start, 0, y as int, paint),
        decreases h - y,
    {
        let held = is_kept(keep, y);
        let mut x: usize = 0;
        while x < w
            invariant
                x <= w,
                y < h,
                dx <= w,
                dst.wf(),
                dst.extent() == extent,
                extent.width == w && extent.height == h,
                covers(old_page@, w as int, h as int),
                covers(new_page@, w as int, h as int),
                count == old_page@.len(),
                paint == slide(old_page@, new_page@, from, dx as int, keep@, w as int),
                held == kept(keep@, y as int),
                dst.is_painted_to(start, x as int, y as int, paint),
            decreases w - x,
        {
            proof {
                a_page_has_the_pixel(old_page@, w as int, h as int, w - 1, y as int);
                a_page_has_the_pixel(new_page@, w as int, h as int, w - 1, y as int);
            }
            let row: usize = y * w;
            let p: u32 = if held {
                new_page[row + x]
            } else {
                match from {
                    Arrive::FromRight => if x < w - dx {
                        old_page[row + (x + dx)]
                    } else {
                        new_page[row + (x - (w - dx))]
                    },
                    Arrive::FromLeft => if x < dx {
                        new_page[row + (w - dx + x)]
                    } else {
                        old_page[row + (x - dx)]
                    },
                }
            };
            put(dst, x, y, Some(p), Ghost(start), Ghost(paint));
            x = x + 1;
        }
        proof {
            a_row_is_painted(start, dst.pixels@, dst.stride as int, w as int, y as int, paint);
        }
        y = y + 1;
    }
}

/// Every row of a page, to the panel.
pub fn refresh_all(dst: &mut Surface<'_>, ram: &[u32])
    requires
        old(dst).wf(),
        covers(ram@, old(dst).width as int, old(dst).height as int),
    ensures
        final(dst).is_painted(old(dst).pixels@, page(ram@, old(dst).width as int)),
        final(dst).wf(),
        final(dst).extent() == old(dst).extent(),
{
    let ghost start = dst.pixels@;
    let ghost (stride, w, h) = (dst.stride as int, dst.width as int, dst.height as int);
    let nothing = Window { x: 0, y: 0, w: 0, h: 0, r: 0 };
    compose_window(dst, ram, ram, nothing);
    proof {
        the_same_paint(
            start,
            dst.pixels@,
            stride,
            w,
            h,
            through(ram@, ram@, nothing, w),
            page(ram@, w),
        );
    }
}

/// One colour everywhere.
pub fn fill(pixels: &mut [u32], colour: u32)
    ensures
        final(pixels)@.len() == old(pixels)@.len(),
        forall|i: int| 0 <= i < final(pixels)@.len() ==> final(pixels)@[i] == colour,
{
    let count: usize = pixels.len();
    let mut i: usize = 0;
    while i < count
        invariant
            count == pixels@.len(),
            count == old(pixels)@.len(),
            i <= count,
            forall|k: int| 0 <= k < i ==> pixels@[k] == colour,
        decreases count - i,
    {
        pixels[i] = colour;
        i = i + 1;
    }
}

/// A rectangle that the renderer has drawn anew.
#[derive(Clone, Copy, PartialEq, Eq, Structural, Debug)]
pub struct Rect {
    pub x: i32,
    pub y: i32,
    pub width: u32,
    pub height: u32,
}

/// A coordinate on the panel: nothing lies before its edge.
pub open spec fn on_panel(n: i32) -> int {
    if n < 0 {
        0
    } else {
        n as int
    }
}

/// Whether a rectangle, moved onto the panel, holds a pixel.
pub open spec fn in_rect(rect: Rect, x: int, y: int) -> bool {
    &&& on_panel(rect.x) <= x < on_panel(rect.x) + rect.width
    &&& on_panel(rect.y) <= y < on_panel(rect.y) + rect.height
}

/// Whether one of the first so many rectangles holds a pixel.
pub open spec fn in_rects(rects: Seq<Rect>, n: int, x: int, y: int) -> bool {
    exists|k: int| 0 <= k < n && in_rect(#[trigger] rects[k], x, y)
}

/// Whether a buffer is what another was with the marked pixels of the panel
/// copied from a page.
pub open spec fn copied(
    old: Seq<u32>,
    new: Seq<u32>,
    from: Seq<u32>,
    extent: Extent,
    mark: spec_fn(int, int) -> bool,
) -> bool {
    let (stride, width, height) = (
        extent.stride as int,
        extent.width as int,
        extent.height as int,
    );
    &&& new.len() == old.len()
    &&& forall|i: int|
        0 <= i < old.len() ==> #[trigger] new[i] == if comes_before(i, stride, width, 0, height)
            && mark(i % stride, i / stride) {
            from[(i / stride) * width + i % stride]
        } else {
            old[i]
        }
}

/// Copy one pixel more.
fn copy_pixel(
    dst: &mut Surface<'_>,
    from: &[u32],
    x: usize,
    y: usize,
    Ghost(start): Ghost<Seq<u32>>,
    Ghost(mark): Ghost<spec_fn(int, int) -> bool>,
    Ghost(more): Ghost<spec_fn(int, int) -> bool>,
)
    requires
        old(dst).wf(),
        covers(from@, old(dst).width as int, old(dst).height as int),
        x < old(dst).width,
        y < old(dst).height,
        copied(start, old(dst).pixels@, from@, old(dst).extent(), mark),
        forall|a: int, b: int| #[trigger]
            more(a, b) == (mark(a, b) || a == x && b == y),
    ensures
        final(dst).wf(),
        final(dst).extent() == old(dst).extent(),
        copied(start, final(dst).pixels@, from@, old(dst).extent(), more),
{
    let ghost before = dst.pixels@;
    let ghost extent = dst.extent();
    let (stride, w, h): (usize, usize, usize) = (dst.stride, dst.width, dst.height);
    let len: usize = dst.pixels.len();
    let count: usize = from.len();
    proof {
        a_row_is_within(y as int, stride as int, w as int, h as int, len as int);
        a_page_has_the_pixel(from@, w as int, h as int, x as int, y as int);
        a_place_reads_back(x as int, y as int, stride as int);
    }
    let place: usize = y * stride + x;
    let p: u32 = from[y * w + x];
    dst.pixels[place] = p;
    proof {
        let s = stride as int;
        assert forall|i: int| 0 <= i < start.len() implies #[trigger] dst.pixels@[i] == (
        if comes_before(i, s, w as int, 0, h as int) && more(i % s, i / s) {
            from@[(i / s) * (w as int) + i % s]
        } else {
            start[i]
        }) by {
            assert(before[i] == before[i]);
            assert(more(i % s, i / s) == (mark(i % s, i / s) || i % s == x && i / s == y));
            if i != place && i % s == x && i / s == y {
                a_place_is_one_pixel(i, x as int, y as int, s);
            }
        }
    }
}

/// What has been copied once the rectangles before the k-th have been, and the
/// k-th up to a place, row by row.
pub open spec fn copied_so_far(rects: Seq<Rect>, k: int, x: int, y: int) -> spec_fn(
    int,
    int,
) -> bool {
    |a: int, b: int|
        in_rects(rects, k, a, b) || in_rect(rects[k], a, b) && (b < y || b == y && a < x)
}

/// Two marks that agree on the panel mark the same.
proof fn the_same_mark(
    old: Seq<u32>,
    new: Seq<u32>,
    from: Seq<u32>,
    extent: Extent,
    one: spec_fn(int, int) -> bool,
    other: spec_fn(int, int) -> bool,
)
    requires
        extent.width <= extent.stride,
        copied(old, new, from, extent, one),
        forall|a: int, b: int|
            0 <= a < extent.width && 0 <= b < extent.height ==> #[trigger] one(a, b) == other(a, b),
    ensures
        copied(old, new, from, extent, other),
{
    let s = extent.stride as int;
    assert forall|i: int| 0 <= i < old.len() implies #[trigger] new[i] == (if comes_before(
        i,
        s,
        extent.width as int,
        0,
        extent.height as int,
    ) && other(i % s, i / s) {
        from[(i / s) * (extent.width as int) + i % s]
    } else {
        old[i]
    }) by {
        if comes_before(i, s, extent.width as int, 0, extent.height as int) {
            vstd::arithmetic::div_mod::lemma_mod_bound(i, s);
            vstd::arithmetic::div_mod::lemma_div_pos_is_pos(i, s);
            assert(one(i % s, i / s) == other(i % s, i / s));
        }
    }
}

/// Copy the rectangles that were drawn anew to the panel, and nothing else: the
/// rectangles themselves and not their bounding box.
#[verifier::spinoff_prover]
pub fn copy_region(dst: &mut Surface<'_>, ram: &[u32], rects: &[Rect])
    requires
        old(dst).wf(),
        covers(ram@, old(dst).width as int, old(dst).height as int),
    ensures
        copied(
            old(dst).pixels@,
            final(dst).pixels@,
            ram@,
            old(dst).extent(),
            |x: int, y: int| in_rects(rects@, rects@.len() as int, x, y),
        ),
        final(dst).wf(),
        final(dst).extent() == old(dst).extent(),
{
    let (w, h): (usize, usize) = (dst.width, dst.height);
    let ghost extent = dst.extent();
    let ghost start = dst.pixels@;
    let mut k: usize = 0;
    while k < rects.len()
        invariant
            k <= rects@.len(),
            dst.wf(),
            dst.extent() == extent,
            extent.width == w && extent.height == h,
            covers(ram@, w as int, h as int),
            copied(
                start,
                dst.pixels@,
                ram@,
                extent,
                |a: int, b: int| in_rects(rects@, k as int, a, b),
            ),
        decreases rects@.len() - k,
    {
        let rect = rects[k];
        let left: u64 = if rect.x < 0 {
            0
        } else {
            rect.x as u64
        };
        let top: u64 = if rect.y < 0 {
            0
        } else {
            rect.y as u64
        };
        let right: u64 = smaller(left + rect.width as u64, w as u64);
        let bottom: u64 = smaller(top + rect.height as u64, h as u64);
        let mut y: u64 = top;
        proof {
            the_same_mark(
                start,
                dst.pixels@,
                ram@,
                extent,
                |a: int, b: int| in_rects(rects@, k as int, a, b),
                copied_so_far(rects@, k as int, left as int, top as int),
            );
        }
        while y < bottom
            invariant
                k < rects@.len(),
                rect == rects@[k as int],
                left == on_panel(rect.x) && top == on_panel(rect.y),
                right == if left + rect.width < w {
                    left + rect.width
                } else {
                    w as int
                },
                bottom == if top + rect.height < h {
                    top + rect.height
                } else {
                    h as int
                },
                top <= y,
                dst.wf(),
                dst.extent() == extent,
                extent.width == w && extent.height == h,
                covers(ram@, w as int, h as int),
                copied(
                    start,
                    dst.pixels@,
                    ram@,
                    extent,
                    copied_so_far(rects@, k as int, left as int, y as int),
                ),
            decreases bottom - y,
        {
            let mut x: u64 = left;
            while x < right
                invariant
                    k < rects@.len(),
                    rect == rects@[k as int],
                    left == on_panel(rect.x) && top == on_panel(rect.y),
                    right == if left + rect.width < w {
                        left + rect.width
                    } else {
                        w as int
                    },
                    bottom == if top + rect.height < h {
                        top + rect.height
                    } else {
                        h as int
                    },
                    top <= y < bottom,
                    left <= x,
                    x <= right || right < left,
                    dst.wf(),
                    dst.extent() == extent,
                    extent.width == w && extent.height == h,
                    covers(ram@, w as int, h as int),
                    copied(
                        start,
                        dst.pixels@,
                        ram@,
                        extent,
                        copied_so_far(rects@, k as int, x as int, y as int),
                    ),
                decreases right - x,
            {
                copy_pixel(
                    dst,
                    ram,
                    x as usize,
                    y as usize,
                    Ghost(start),
                    Ghost(copied_so_far(rects@, k as int, x as int, y as int)),
                    Ghost(copied_so_far(rects@, k as int, x + 1, y as int)),
                );
                x = x + 1;
            }
            proof {
                the_same_mark(
                    start,
                    dst.pixels@,
                    ram@,
                    extent,
                    copied_so_far(rects@, k as int, x as int, y as int),
                    copied_so_far(rects@, k as int, left as int, y + 1),
                );
            }
            y = y + 1;
        }
        proof {
            let one = copied_so_far(rects@, k as int, left as int, y as int);
            let other = |a: int, b: int| in_rects(rects@, k + 1, a, b);
            assert forall|a: int, b: int|
                0 <= a < extent.width && 0 <= b < extent.height implies #[trigger] one(a, b)
                == other(a, b) by {
                if in_rect(rects@[k as int], a, b) {
                    assert(in_rects(rects@, k + 1, a, b));
                }
                if in_rects(rects@, k as int, a, b) {
                    let j = choose|j: int| 0 <= j < k && in_rect(#[trigger] rects@[j], a, b);
                    assert(0 <= j < k + 1 && in_rect(rects@[j], a, b));
                }
            }
            the_same_mark(start, dst.pixels@, ram@, extent, one, other);
        }
        k = k + 1;
    }
}

fn smaller(a: u64, b: u64) -> (r: u64)
    ensures
        r == if a < b {
            a
        } else {
            b
        },
{
    if a < b {
        a
    } else {
        b
    }
}

/// The last frame of a slide is the new page, whole, whichever way it came: the
/// panel and the page agree again.
pub proof fn a_slide_ends_on_the_new_page(
    old_page: Seq<u32>,
    new_page: Seq<u32>,
    from: Arrive,
    bands: Seq<(u32, u32)>,
    width: int,
    x: int,
    y: int,
)
    requires
        0 <= x < width,
    ensures
        slide(old_page, new_page, from, width, bands, width)(x, y) == page(new_page, width)(x, y),
{
}

/// A slide begins with the old page where it was, but for the bands that do not
/// travel.
pub proof fn a_slide_begins_on_the_old_page(
    old_page: Seq<u32>,
    new_page: Seq<u32>,
    from: Arrive,
    bands: Seq<(u32, u32)>,
    width: int,
    x: int,
    y: int,
)
    requires
        0 <= x < width,
        !kept(bands, y),
    ensures
        slide(old_page, new_page, from, 0, bands, width)(x, y) == page(old_page, width)(x, y),
{
}

/// The ring is an outline around the window and nothing else: it never covers
/// what is seen through it.
pub proof fn the_ring_never_covers_the_window(window: Window, x: int, y: int, width: int)
    requires
        window.r >= 0,
        window.can_grow(IRIS_RING_BLEED as int),
        width >= 0,
        seen(window, x, y, width),
    ensures
        !on_outline(
            window.spec_grown(IRIS_RING_BLEED as int),
            IRIS_RING_WIDTH as int,
            x,
            y,
            width,
        ),
{
    let inner = window.spec_grown(IRIS_RING_BLEED as int).spec_shrunk(IRIS_RING_WIDTH as int);
    assert(inner.spec_shrunk(3) == window);
    a_shrunk_window_shows_less(inner, 3, x, y, width);
}

/// A frame of an iris holds pixels of its two pages and of the ring, each in its
/// place, and no blend of them.
pub proof fn an_iris_never_blends(
    arriving: Seq<u32>,
    leaving: Seq<u32>,
    window: Window,
    shown: Shown,
    width: int,
    x: int,
    y: int,
)
    ensures
        ({
            let p = iris(arriving, leaving, window, shown, width)(x, y);
            ||| p == Some(arriving[y * width + x])
            ||| p == Some(leaving[y * width + x])
            ||| p == Some(IRIS_RING)
        }),
{
}

/// The reverse of an iris is its mirror: what is seen through the window of the
/// one surrounds that of the other.
pub proof fn a_closing_iris_mirrors_an_opening_one(
    a: Seq<u32>,
    b: Seq<u32>,
    window: Window,
    width: int,
    x: int,
    y: int,
)
    ensures
        iris(a, b, window, Shown::Leaving, width)(x, y) == iris(
            b,
            a,
            window,
            Shown::Arriving,
            width,
        )(x, y),
{
}

/// What lies over a pixel adds to what is left of it, and leaves the less the more
/// it covers.
pub proof fn more_cover_leaves_less(over: u8, under: int, thin: u8, thick: u8)
    requires
        0 <= under < 256,
        thin <= thick,
    ensures
        over <= laid_over(over, under, thick) <= laid_over(over, under, thin) <= over + under,
{
    assert(0 <= under * (255 - thick) / 255 <= under * (255 - thin) / 255 <= under)
        by (nonlinear_arith)
        requires
            0 <= under < 256,
            0 <= thin <= thick <= 255,
    ;
}

/// A pixel holds its three colours apart, and swapping red and blue twice changes
/// nothing.
pub proof fn a_pixel_holds_its_colours(r: int, g: int, b: int)
    requires
        0 <= r < 256 && 0 <= g < 256 && 0 <= b < 256,
    ensures
        ({
            let p = opaque_pixel(r, g, b) as u32;
            &&& red(p) == r && green(p) == g && blue(p) == b
            &&& p >= 0xff00_0000
            &&& opaque_pixel(blue(p), green(p), red(p)) == opaque_pixel(b, g, r)
        }),
{
}

/// A window sets out from where it was and arrives where it was going.
pub proof fn a_window_travels_from_one_place_to_the_other(from: Window, to: Window)
    requires
        -0x100_0000 < to.x - from.x < 0x100_0000,
        -0x100_0000 < to.y - from.y < 0x100_0000,
        -0x100_0000 < to.w - from.w < 0x100_0000,
        -0x100_0000 < to.h - from.h < 0x100_0000,
        -0x100_0000 < to.r - from.r < 0x100_0000,
    ensures
        from.spec_lerp(to, 0) == from,
        from.spec_lerp(to, 0x3f80_0000) == to,
{
    all_of_the_way(from.x as int, to.x as int);
    all_of_the_way(from.y as int, to.y as int);
    all_of_the_way(from.w as int, to.w as int);
    all_of_the_way(from.h as int, to.h as int);
    all_of_the_way(from.r as int, to.r as int);
}

proof fn all_of_the_way(a: int, b: int)
    requires
        -0x100_0000 < b - a < 0x100_0000,
    ensures
        between(a, b, 0) == a,
        between(a, b, 0x3f80_0000) == b,
{
    let way = b - a;
    let far = (if way < 0 {
        -way
    } else {
        way
    }) as nat;
    crate::rounding::a_share_of_nothing_and_of_all(far);
    assert(!single_negative(0) && !single_negative(0x3f80_0000));
}

/// A window that was grown and shrunk again is the same; growing moves each edge
/// out by as much.
pub proof fn growing_moves_each_edge(window: Window, n: int)
    requires
        window.can_grow(n),
        n >= 0,
        window.r >= 0,
    ensures
        window.spec_grown(n).spec_shrunk(n) == window,
        window.spec_grown(n).x == window.x - n && window.spec_grown(n).y == window.y - n,
        window.spec_grown(n).x + window.spec_grown(n).w == window.x + window.w + n,
        window.spec_grown(n).y + window.spec_grown(n).h == window.y + window.h + n,
{
}

/// A slide moves both pages together: each pixel is the one of the old page, or of
/// the new one, that has come to stand there; a kept band is the new page from the
/// first.
pub proof fn a_slide_moves_both_pages_together(
    old_page: Seq<u32>,
    new_page: Seq<u32>,
    dx: int,
    bands: Seq<(u32, u32)>,
    width: int,
    x: int,
    y: int,
)
    requires
        0 <= x < width,
        0 <= dx <= width,
    ensures
        ({
            let right = slide(old_page, new_page, Arrive::FromRight, dx, bands, width)(x, y);
            let left = slide(old_page, new_page, Arrive::FromLeft, dx, bands, width)(x, y);
            if exists|k: int|
                0 <= k < bands.len() && (#[trigger] bands[k]).0 <= y < bands[k].0 + bands[k].1 {
                right == page(new_page, width)(x, y) && left == page(new_page, width)(x, y)
            } else {
                &&& x + dx < width ==> right == page(old_page, width)(x + dx, y)
                &&& x + dx >= width ==> right == page(new_page, width)(x + dx - width, y)
                &&& x >= dx ==> left == page(old_page, width)(x - dx, y)
                &&& x < dx ==> left == page(new_page, width)(x + (width - dx), y)
            }
        }),
{
    assert(y * width + (x + dx) == y * width + x + dx);
    assert(y * width + (x + dx - width) == y * width + x + dx - width);
    assert(y * width + (x - dx) == y * width + x - dx);
    assert(y * width + (x + (width - dx)) == y * width + width - dx + x);
}

/// An iris shows one page through its window and the other around it, away from
/// the ring, and its ring stands outside the window.
pub proof fn an_iris_shows_one_page_in_the_other(
    arriving: Seq<u32>,
    leaving: Seq<u32>,
    window: Window,
    width: int,
    x: int,
    y: int,
)
    requires
        window.r >= 0,
        window.can_grow(6),
        width >= 0,
    ensures
        seen(window, x, y, width) ==> {
            &&& iris(arriving, leaving, window, Shown::Arriving, width)(x, y) == page(
                arriving,
                width,
            )(x, y)
            &&& iris(arriving, leaving, window, Shown::Leaving, width)(x, y) == page(
                leaving,
                width,
            )(x, y)
        },
        !seen(window.spec_grown(6), x, y, width) ==> {
            &&& !seen(window, x, y, width) ==> iris(
                arriving,
                leaving,
                window,
                Shown::Arriving,
                width,
            )(x, y) == page(leaving, width)(x, y)
            &&& !seen(window, x, y, width) ==> iris(
                arriving,
                leaving,
                window,
                Shown::Leaving,
                width,
            )(x, y) == page(arriving, width)(x, y)
        },
        seen(window.spec_grown(6), x, y, width) && !seen(
            window.spec_grown(6).spec_shrunk(3),
            x,
            y,
            width,
        ) ==> iris(arriving, leaving, window, Shown::Arriving, width)(x, y) == Some(
            0xffff_ffffu32,
        ),
{
    if seen(window, x, y, width) {
        the_ring_never_covers_the_window(window, x, y, width);
    }
}

/// A corner is no larger than half of the shorter side, and otherwise what it was
/// asked to be.
pub proof fn a_corner_is_at_most_half_a_side(window: Window)
    requires
        window.w >= 0,
        window.h >= 0,
        window.r >= 0,
    ensures
        2 * corner(window) <= window.w,
        2 * corner(window) <= window.h,
        2 * window.r <= window.w && 2 * window.r <= window.h ==> corner(window) == window.r,
        0 <= corner(window) <= window.r,
{
}

/// A rectangle that was drawn is copied where it lies on the panel, and nothing
/// beside it is.
pub proof fn a_rectangle_is_copied_where_it_lies(rect: Rect, x: int, y: int)
    requires
        rect.x >= 0,
        rect.y >= 0,
    ensures
        in_rect(rect, x, y) <==> rect.x <= x < rect.x + rect.width && rect.y <= y < rect.y
            + rect.height,
{
}

/// A slide lasts for less than a fifth of a second, and an iris for three tenths.
pub proof fn transitions_are_short()
    ensures
        SLIDE_MS == 180,
        IRIS_MS == 300,
{
}

} // verus!
