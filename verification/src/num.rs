//! Integers held to a range.
use vstd::prelude::*;

verus! {

/// The nearest value to `x` in `lo..=hi`.
pub open spec fn clamped(x: int, lo: int, hi: int) -> int {
    if x < lo {
        lo
    } else if x > hi {
        hi
    } else {
        x
    }
}

/// The sign of a number: -1, 0 or 1.
pub open spec fn sign(x: int) -> int {
    if x < 0 {
        -1
    } else if x > 0 {
        1
    } else {
        0
    }
}

/// The nearest value to `x` in `lo..=hi`.
pub fn clamp(x: i64, lo: i64, hi: i64) -> (r: i64)
    requires
        lo <= hi,
    ensures
        r == clamped(x as int, lo as int, hi as int),
        lo <= r <= hi,
{
    if x < lo {
        lo
    } else if x > hi {
        hi
    } else {
        x
    }
}

/// The sign of a number: -1, 0 or 1.
pub fn signum(x: i32) -> (r: i32)
    ensures
        r == sign(x as int),
{
    if x < 0 {
        -1
    } else if x > 0 {
        1
    } else {
        0
    }
}

/// A time after another, as far as times go.
pub open spec fn later(now: u64, by: u64) -> u64 {
    if now + by > u64::MAX {
        u64::MAX
    } else {
        (now + by) as u64
    }
}

/// A time after another, as far as times go.
pub fn later_than(now: u64, by: u64) -> (r: u64)
    ensures
        r == later(now, by),
{
    now.saturating_add(by)
}

/// The generation after one.
pub open spec fn wrapped(n: u64) -> u64 {
    if n == u64::MAX {
        0
    } else {
        (n + 1) as u64
    }
}

/// The generation after one.
pub fn next_generation(n: u64) -> (r: u64)
    ensures
        r == wrapped(n),
{
    n.wrapping_add(1)
}

/// A number held to a range lies in it, is kept where it lay in it already, and
/// otherwise is the end that it lay beyond.
pub proof fn what_lies_in_range_is_kept(x: int, lo: int, hi: int)
    requires
        lo <= hi,
    ensures
        lo <= clamped(x, lo, hi) <= hi,
        lo <= x <= hi ==> clamped(x, lo, hi) == x,
        x <= lo ==> clamped(x, lo, hi) == lo,
        x >= hi ==> clamped(x, lo, hi) == hi,
{
}

/// A sign has the way of its number and none of its size.
pub proof fn a_sign_has_its_numbers_way(x: int)
    ensures
        x > 0 ==> sign(x) == 1,
        x < 0 ==> sign(x) == -1,
        x == 0 ==> sign(x) == 0,
{
}

/// A later time is so much later, or the last time that there is.
pub proof fn a_later_time_is_so_much_later(now: u64, by: u64)
    ensures
        now <= later(now, by),
        later(now, by) - now == by || later(now, by) == u64::MAX,
        later(now, by) - now <= by,
{
}

/// The next generation is another one.
pub proof fn the_next_generation_is_another(n: u64)
    ensures
        wrapped(n) != n,
        n < u64::MAX ==> wrapped(n) == n + 1,
{
}

} // verus!
