//! Numbers that are kept to so many significant bits, as the machine's binary
//! fractions are: rounded to the nearest, and between two to the even one.
//!
//! A double is counted in units of two to the minus 1074th, of which every
//! finite one is a whole number; a single in units of two to the minus 149th.
use vstd::arithmetic::div_mod::{
    lemma_fundamental_div_mod, lemma_fundamental_div_mod_converse,
};
use vstd::arithmetic::power2::{
    lemma_pow2_adds, lemma_pow2_pos, lemma_pow2_strictly_increases, lemma_pow2_unfold, pow2,
};
use vstd::prelude::*;

verus! {

/// The significant bits of a single and of a double.
pub const SINGLE: u32 = 24;

pub const DOUBLE: u32 = 53;

/// A fraction rounded to the nearest whole number, and between two to the even
/// one.
pub open spec fn nearest_even(n: nat, d: nat) -> nat {
    let q = n / d;
    let r = n % d;
    if r < d - r || r == d - r && q % 2 == 0 {
        q
    } else {
        q + 1
    }
}

/// How many bits a number has.
pub open spec fn length(n: nat) -> nat
    decreases n,
{
    if n == 0 {
        0
    } else {
        1 + length(n / 2)
    }
}

/// The last place that is kept of a number with so many bits.
pub open spec fn place(length: nat, bits: nat) -> nat {
    if length > bits {
        pow2((length - bits) as nat)
    } else {
        1
    }
}

/// A fraction kept to so many significant bits.
pub open spec fn quotient(n: nat, d: nat, bits: nat) -> nat {
    let last = place(length(n / d), bits);
    nearest_even(n, d * last) * last
}

/// A number kept to so many significant bits.
pub open spec fn rounded(n: nat, bits: nat) -> nat {
    quotient(n, 1, bits)
}

proof fn length_bounds(n: nat)
    requires
        n > 0,
    ensures
        length(n) > 0,
        pow2((length(n) - 1) as nat) <= n < pow2(length(n)),
    decreases n,
{
    lemma_pow2_unfold(length(n));
    if n == 1 {
        assert(length(1) == 1 + length(0)) by {
            assert(1nat / 2 == 0);
        }
        vstd::arithmetic::power2::lemma2_to64();
    } else {
        length_bounds(n / 2);
        lemma_pow2_unfold((length(n) - 1) as nat);
    }
}

proof fn length_is(n: nat, l: nat)
    requires
        l > 0,
        pow2((l - 1) as nat) <= n < pow2(l),
    ensures
        length(n) == l,
{
    lemma_pow2_pos((l - 1) as nat);
    length_bounds(n);
    if length(n) < l {
        if length(n) < l - 1 {
            lemma_pow2_strictly_increases(length(n), (l - 1) as nat);
        }
    } else if length(n) > l {
        if length(n) - 1 > l {
            lemma_pow2_strictly_increases(l, (length(n) - 1) as nat);
        }
    }
}

/// Scaling does not change which whole number is nearest.
pub proof fn scaling_keeps_the_nearest(n: nat, d: nat, s: nat)
    requires
        d > 0,
        s > 0,
    ensures
        nearest_even(n * s, d * s) == nearest_even(n, d),
{
    let q = (n / d) as int;
    let r = (n % d) as int;
    lemma_fundamental_div_mod(n as int, d as int);
    assert(n * s == q * (d * s) + r * s && 0 <= r * s < d * s) by (nonlinear_arith)
        requires
            n == d * q + r,
            0 <= r < d,
            s > 0,
    ;
    assert(d * s > 0) by (nonlinear_arith)
        requires
            d > 0,
            s > 0,
    ;
    lemma_fundamental_div_mod_converse((n * s) as int, (d * s) as int, q, r * s);
    assert(d * s - r * s == (d - r) * s) by (nonlinear_arith);
    assert((r * s < (d - r) * s) == (r < d - r)) by (nonlinear_arith)
        requires
            s > 0,
    ;
    assert((r * s == (d - r) * s) == (r == d - r)) by (nonlinear_arith)
        requires
            s > 0,
    ;
}

proof fn scaling_adds_bits(n: nat, d: nat, k: nat)
    requires
        d > 0,
        n / d > 0,
    ensures
        length(n * pow2(k) / d) == length(n / d) + k,
{
    let f = (n / d) as int;
    let l = length(n / d);
    let p = pow2(k) as int;
    lemma_pow2_pos(k);
    length_bounds(n / d);
    lemma_fundamental_div_mod(n as int, d as int);
    let lo = pow2((l - 1) as nat) as int;
    let hi = pow2(l) as int;
    lemma_pow2_adds((l - 1) as nat, k);
    lemma_pow2_adds(l, k);
    let g = (n * p) / (d as int);
    lemma_fundamental_div_mod((n * p) as int, d as int);
    assert(lo * p <= g) by (nonlinear_arith)
        requires
            n >= d * f,
            f >= lo,
            p > 0,
            d > 0,
            n * p == d * g + (n * p) % (d as int),
            0 <= (n * p) % (d as int) < d,
    ;
    assert(g < hi * p) by (nonlinear_arith)
        requires
            n < d * f + d,
            f + 1 <= hi,
            p > 0,
            d > 0,
            n * p == d * g + (n * p) % (d as int),
            0 <= (n * p) % (d as int),
    ;
    length_is((n * pow2(k)) / d, l + k);
}

/// A fraction that has all its significant bits already gains none by scaling.
pub proof fn scaling_keeps_a_quotient(n: nat, d: nat, bits: nat, k: nat)
    requires
        d > 0,
        length(n / d) >= bits,
        bits > 0,
    ensures
        quotient(n * pow2(k), d, bits) == quotient(n, d, bits) * pow2(k),
{
    let l = length(n / d);
    scaling_adds_bits(n, d, k);
    let last = place(l, bits);
    lemma_pow2_pos(k);
    vstd::arithmetic::power2::lemma2_to64();
    lemma_pow2_adds((l - bits) as nat, k);
    assert(last == pow2((l - bits) as nat));
    assert(place(l + k, bits) == last * pow2(k));
    lemma_pow2_pos((l - bits) as nat);
    let s = pow2(k);
    assert(d * (last * s) == (d * last) * s) by (nonlinear_arith);
    assert(d * last > 0) by (nonlinear_arith)
        requires
            d > 0,
            last > 0,
    ;
    scaling_keeps_the_nearest(n, d * last, s);
    let a = nearest_even(n, d * last);
    assert(a * (last * s) == (a * last) * s) by (nonlinear_arith);
}

/// Nothing of nothing is kept.
pub proof fn nothing_is_kept(d: nat, bits: nat)
    requires
        d > 0,
    ensures
        quotient(0, d, bits) == 0,
{
    lemma_fundamental_div_mod_converse(0, d as int, 0, 0);
    assert(0nat / d == 0 && 0nat % d == 0);
    assert(place(length(0nat / d), bits) == 1);
    assert(d * 1 == d);
    assert(nearest_even(0, d * 1) == 0);
}

/// A number that fits its bits is kept as it is.
pub proof fn what_fits_is_kept(n: nat, bits: nat)
    requires
        length(n) <= bits,
    ensures
        rounded(n, bits) == n,
{
    assert(n / 1 == n && n % 1 == 0);
}

proof fn multiples_are_kept(n: nat, bits: nat, k: nat)
    requires
        0 < length(n) <= bits,
        length(n) + k > bits,
    ensures
        rounded(n * pow2(k), bits) == n * pow2(k),
{
    assert(n / 1 == n);
    assert(n > 0);
    scaling_adds_bits(n, 1, k);
    assert((n * pow2(k)) / 1 == n * pow2(k));
    let e = (length(n) + k - bits) as nat;
    let last = pow2(e);
    let rest = pow2((k - e) as nat);
    lemma_pow2_adds((k - e) as nat, e);
    lemma_pow2_pos(e);
    let m = (n * rest) as int;
    assert(n * (rest * last) == m * last) by (nonlinear_arith)
        requires
            m == n * rest,
    ;
    lemma_fundamental_div_mod_converse((n * pow2(k)) as int, last as int, m, 0);
    assert(1 * last == last);
}

/// Scaling does not change how a number is rounded.
pub proof fn scaling_keeps_a_number(n: nat, bits: nat, k: nat)
    requires
        bits > 0,
    ensures
        rounded(n * pow2(k), bits) == rounded(n, bits) * pow2(k),
{
    assert(n / 1 == n);
    if length(n) >= bits {
        scaling_keeps_a_quotient(n, 1, bits, k);
    } else if n == 0 {
        assert(0 * pow2(k) == 0);
        what_fits_is_kept(0, bits);
    } else {
        what_fits_is_kept(n, bits);
        if length(n) + k > bits {
            multiples_are_kept(n, bits, k);
        } else {
            scaling_adds_bits(n, 1, k);
            assert((n * pow2(k)) / 1 == n * pow2(k));
            what_fits_is_kept(n * pow2(k), bits);
        }
    }
}

/// What is kept of a fraction is less than twice as much.
pub proof fn a_quotient_is_near(n: nat, d: nat, bits: nat)
    requires
        d > 0,
        bits > 0,
    ensures
        quotient(n, d, bits) <= n / d + place(length(n / d), bits),
        place(length(n / d), bits) <= n / d + 1,
        quotient(n, d, bits) <= 2 * (n / d) + 1,
{
    let l = length(n / d);
    let last = place(l, bits);
    let f = n / d;
    vstd::arithmetic::power2::lemma2_to64();
    if l > bits {
        length_bounds(f);
        lemma_pow2_pos((l - bits) as nat);
        if l - bits < l - 1 {
            lemma_pow2_strictly_increases((l - bits) as nat, (l - 1) as nat);
        }
    }
    let unit = d * last;
    assert(unit > 0) by (nonlinear_arith)
        requires
            unit == d * last,
            d > 0,
            last > 0,
    ;
    let a = (n / unit) as int;
    lemma_fundamental_div_mod(n as int, unit as int);
    lemma_fundamental_div_mod(n as int, d as int);
    assert(a * last <= f) by (nonlinear_arith)
        requires
            n == unit * a + n % unit,
            n % unit >= 0,
            unit == d * last,
            n < d * f + d,
            d > 0,
            last > 0,
            a >= 0,
    ;
    let r = nearest_even(n, unit) as int;
    assert(r * last <= f + last) by (nonlinear_arith)
        requires
            r <= a + 1,
            a * last <= f,
            last > 0,
    ;
    if l <= bits {
        // The last place is one: the nearest whole number is at most one more.
        if f == 0 {
            assert(length(0) == 0);
        }
    } else {
        assert(f >= last);
    }
}

/// A number that is at least a power of two has more bits than its exponent.
pub proof fn length_at_least(n: nat, e: nat)
    requires
        n >= pow2(e),
    ensures
        length(n) > e,
{
    lemma_pow2_pos(e);
    length_bounds(n);
    if length(n) < e {
        lemma_pow2_strictly_increases(length(n), e);
    }
}

/// A fraction rounded to the nearest whole number.
pub fn nearest_whole(n: u128, d: u128) -> (r: u128)
    requires
        0 < d,
        n < u128::MAX,
    ensures
        r == nearest_even(n as nat, d as nat),
{
    let q: u128 = n / d;
    let rest: u128 = n % d;
    if rest < d - rest || rest == d - rest && q % 2 == 0 {
        q
    } else {
        assert(q <= n) by (nonlinear_arith)
            requires
                q == n / d,
                d > 0,
                n >= 0,
        ;
        q + 1
    }
}

/// A power of two.
pub fn power(k: u32) -> (r: u128)
    requires
        k <= 127,
    ensures
        r == pow2(k as nat),
{
    let mut r: u128 = 1;
    let mut i: u32 = 0;
    proof {
        vstd::arithmetic::power2::lemma2_to64();
    }
    while i < k
        invariant
            i <= k <= 127,
            r == pow2(i as nat),
        decreases k - i,
    {
        proof {
            lemma_pow2_unfold((i + 1) as nat);
            if i + 1 < 127 {
                lemma_pow2_strictly_increases((i + 1) as nat, 127);
            }
            assert(pow2(127) == 0x8000_0000_0000_0000_0000_0000_0000_0000) by {
                lemma_pow2_adds(64, 63);
                vstd::arithmetic::power2::lemma2_to64();
                vstd::arithmetic::power2::lemma2_to64_rest();
            }
        }
        r = r * 2;
        i = i + 1;
    }
    r
}

fn length_of(n: u128) -> (r: u32)
    ensures
        r == length(n as nat),
        r <= 128,
{
    let mut m: u128 = n;
    let mut r: u32 = 0;
    let ghost mut top: nat = 128;
    proof {
        assert(pow2(128) == 0x1_0000_0000_0000_0000_0000_0000_0000_0000) by {
            lemma_pow2_adds(64, 64);
            vstd::arithmetic::power2::lemma2_to64_rest();
            vstd::arithmetic::power2::lemma2_to64();
        }
    }
    while m > 0
        invariant
            r + length(m as nat) == length(n as nat),
            r + top == 128,
            m < pow2(top),
        decreases m,
    {
        proof {
            if top == 0 {
                vstd::arithmetic::power2::lemma2_to64();
            }
            lemma_pow2_unfold(top);
            top = (top - 1) as nat;
        }
        m = m / 2;
        r = r + 1;
    }
    r
}

/// A fraction kept to so many significant bits.
pub fn kept_quotient(n: u128, d: u128, bits: u32) -> (r: u128)
    requires
        0 < d,
        0 < bits,
        n < 0x7fff_ffff_ffff_ffff_ffff_ffff_ffff_ffff,
    ensures
        r == quotient(n as nat, d as nat, bits as nat),
{
    let whole: u128 = n / d;
    let l: u32 = length_of(whole);
    let last: u128 = if l > bits {
        power(l - bits)
    } else {
        1
    };
    proof {
        a_quotient_is_near(n as nat, d as nat, bits as nat);
        lemma_fundamental_div_mod(n as int, d as int);
        if l > bits {
            length_bounds(whole as nat);
            lemma_pow2_pos((l - bits) as nat);
            if l - bits < l - 1 {
                lemma_pow2_strictly_increases((l - bits) as nat, (l - 1) as nat);
            }
        }
        assert(d * last <= n || last == 1) by (nonlinear_arith)
            requires
                last == 1 || last <= whole,
                n >= d * whole,
                d > 0,
        ;
        assert(d * 1 == d);
        assert(d * last > 0) by (nonlinear_arith)
            requires
                d > 0,
                last > 0,
        ;
        assert(whole <= n) by (nonlinear_arith)
            requires
                n >= d * whole,
                d > 0,
        ;
    }
    let unit: u128 = d * last;
    nearest_whole(n, unit) * last
}

/// The parts of a single, by its bits: its exponent, its fraction, and its sign.
pub open spec fn single_exponent(bits: u32) -> nat {
    (bits / 0x80_0000u32) as nat % 256
}

pub open spec fn single_fraction(bits: u32) -> nat {
    bits as nat % 0x80_0000
}

pub open spec fn single_negative(bits: u32) -> bool {
    bits >= 0x8000_0000
}

/// A finite single's magnitude in its units.
pub open spec fn single_units(bits: u32) -> nat {
    if single_exponent(bits) == 0 {
        single_fraction(bits)
    } else {
        (single_fraction(bits) + 0x80_0000) * pow2((single_exponent(bits) - 1) as nat)
    }
}

/// The magnitude of a whole number times a single, to the nearest whole number,
/// halves away from zero. Nothing times infinity is nothing, and so is what is
/// no number; infinity is more than any whole number that is asked for.
pub open spec fn product(n: nat, t: u32) -> nat {
    if single_exponent(t) == 255 {
        if n == 0 || single_fraction(t) != 0 {
            0
        } else {
            pow2(128)
        }
    } else {
        let p = rounded(rounded(n, SINGLE as nat) * single_units(t), SINGLE as nat);
        (2 * p + pow2(149)) / (2 * pow2(149))
    }
}

proof fn scaling_keeps_a_division(x: nat, y: nat, s: nat)
    requires
        y > 0,
        s > 0,
    ensures
        (x * s) / (y * s) == x / y,
{
    lemma_fundamental_div_mod(x as int, y as int);
    let q = (x / y) as int;
    let r = (x % y) as int;
    assert(x * s == q * (y * s) + r * s && 0 <= r * s < y * s) by (nonlinear_arith)
        requires
            x == y * q + r,
            0 <= r < y,
            s > 0,
    ;
    lemma_fundamental_div_mod_converse((x * s) as int, (y * s) as int, q, r * s);
}

/// The nearest whole number to so many times a power of two, where the power is
/// counted from the 149th down: halves go up.
proof fn halves_go_up(p: nat, k: nat)
    ensures
        k <= 149 ==> (2 * (p * pow2(k)) + pow2(149)) / (2 * pow2(149)) == (2 * p + pow2(
            (149 - k) as nat,
        )) / (2 * pow2((149 - k) as nat)),
        k >= 149 ==> (2 * (p * pow2(k)) + pow2(149)) / (2 * pow2(149)) == p * pow2(
            (k - 149) as nat,
        ),
{
    lemma_pow2_pos(149);
    if k <= 149 {
        let s = pow2(k);
        let d = pow2((149 - k) as nat);
        lemma_pow2_pos(k);
        lemma_pow2_pos((149 - k) as nat);
        lemma_pow2_adds((149 - k) as nat, k);
        assert(2 * (p * s) + d * s == (2 * p + d) * s) by (nonlinear_arith);
        assert(2 * (d * s) == (2 * d) * s) by (nonlinear_arith);
        scaling_keeps_a_division(2 * p + d, 2 * d, s);
    }
    if k >= 149 {
        let d = pow2(149);
        let m = pow2((k - 149) as nat);
        lemma_pow2_adds((k - 149) as nat, 149);
        let x = p * m;
        assert(p * (m * d) == x * d) by (nonlinear_arith)
            requires
                x == p * m,
        ;
        assert(2 * (x * d) + d == x * (2 * d) + d) by (nonlinear_arith);
        lemma_fundamental_div_mod_converse((2 * (x * d) + d) as int, (2 * d) as int, x as int, d as int);
    }
}

/// The magnitude of a whole number times a single, by its bits, as far as it
/// fits.
pub fn times(n: u32, t: u32) -> (r: u64)
    ensures
        r == if product(n as nat, t) > u64::MAX {
            u64::MAX as nat
        } else {
            product(n as nat, t)
        },
{
    let e: u32 = (t / 0x80_0000) % 256;
    let m: u32 = t % 0x80_0000;
    proof {
        vstd::arithmetic::power2::lemma2_to64();
        lemma_pow2_adds(64, 64);
    }
    if e == 255 {
        return if n == 0 || m != 0 {
            0
        } else {
            u64::MAX
        };
    }
    let a: u128 = kept_quotient(n as u128, 1, SINGLE);
    proof {
        a_quotient_is_near(n as nat, 1, SINGLE as nat);
    }
    let sig: u128 = if e == 0 {
        m as u128
    } else {
        m as u128 + 0x80_0000
    };
    let k: u32 = if e == 0 {
        0
    } else {
        e - 1
    };
    assert(0 <= a * sig <= 0x2_0000_0001 * 0x100_0000) by (nonlinear_arith)
        requires
            0 <= a <= 0x2_0000_0001,
            0 <= sig <= 0x100_0000,
    ;
    let p: u128 = kept_quotient(a * sig, 1, SINGLE);
    proof {
        a_quotient_is_near((a * sig) as nat, 1, SINGLE as nat);
        scaling_keeps_a_number((a * sig) as nat, SINGLE as nat, k as nat);
        assert(pow2(0) == 1);
        assert(single_units(t) == sig * pow2(k as nat));
        assert(a * (sig * pow2(k as nat)) == (a * sig) * pow2(k as nat)) by (nonlinear_arith);
        halves_go_up(p as nat, k as nat);
    }
    if k <= 149 {
        if 149 - k > 100 {
            proof {
                let d = pow2((149 - k) as nat);
                lemma_pow2_strictly_increases(64, (149 - k) as nat);
                assert((2 * p + d) / (2 * d as int) == 0) by (nonlinear_arith)
                    requires
                        0 <= 2 * p < d,
                ;
            }
            return 0;
        }
        let d: u128 = power(149 - k);
        proof {
            assert(pow2(100) == 0x10_0000_0000_0000_0000_0000_0000) by {
                lemma_pow2_adds(64, 36);
                lemma_pow2_adds(32, 4);
                vstd::arithmetic::power2::lemma2_to64();
            }
            if 149 - k < 100 {
                lemma_pow2_strictly_increases((149 - k) as nat, 100);
            }
            lemma_pow2_pos((149 - k) as nat);
            assert((2 * p + d) / (2 * d as int) <= 2 * p + 1) by (nonlinear_arith)
                requires
                    d > 0,
                    p >= 0,
            ;
        }
        return ((2 * p + d) / (2 * d)) as u64;
    }
    if k - 149 > 64 {
        proof {
            lemma_pow2_strictly_increases(64, (k - 149) as nat);
            let d = pow2((k - 149) as nat);
            assert(p > 0 ==> p * d >= d) by (nonlinear_arith)
                requires
                    d > 0,
            ;
            assert(p == 0 ==> p * d == 0) by (nonlinear_arith);
        }
        return if p == 0 {
            0
        } else {
            u64::MAX
        };
    }
    let d: u128 = power(k - 149);
    proof {
        if k - 149 < 64 {
            lemma_pow2_strictly_increases((k - 149) as nat, 64);
        }
        assert(0 <= p * d <= 0x800_0000_0000_0000 * 0x1_0000_0000_0000_0000) by (nonlinear_arith)
            requires
                0 <= p <= 0x800_0000_0000_0000,
                0 <= d <= 0x1_0000_0000_0000_0000,
        ;
    }
    let whole: u128 = p * d;
    if whole > u64::MAX as u128 {
        u64::MAX
    } else {
        whole as u64
    }
}

/// The parts of a double, by its bits: its exponent, its fraction, and its sign.
pub open spec fn double_exponent(bits: u64) -> nat {
    (bits / 0x10_0000_0000_0000u64) as nat % 2048
}

pub open spec fn double_fraction(bits: u64) -> nat {
    bits as nat % 0x10_0000_0000_0000
}

pub open spec fn double_negative(bits: u64) -> bool {
    bits >= 0x8000_0000_0000_0000
}

/// Whether a double is a number at all.
pub open spec fn is_number(bits: u64) -> bool {
    double_exponent(bits) < 2047 || double_fraction(bits) == 0
}

/// A finite double's magnitude in its units.
pub open spec fn double_units(bits: u64) -> nat {
    if double_exponent(bits) == 0 {
        double_fraction(bits)
    } else {
        (double_fraction(bits) + 0x10_0000_0000_0000) * pow2((double_exponent(bits) - 1) as nat)
    }
}

/// The whole part of a double's magnitude: nothing of what is no number, and
/// more than any whole number that is asked for of infinity.
pub open spec fn whole_part(bits: u64) -> nat {
    if double_exponent(bits) == 2047 {
        if double_fraction(bits) != 0 {
            0
        } else {
            pow2(1024)
        }
    } else {
        double_units(bits) / pow2(1074)
    }
}

/// A double without what comes after the point.
pub open spec fn truncated(bits: u64) -> int {
    if double_negative(bits) {
        -(whole_part(bits) as int)
    } else {
        whole_part(bits) as int
    }
}

/// Whether a double is more than nothing.
pub open spec fn is_positive(bits: u64) -> bool {
    is_number(bits) && !double_negative(bits) && bits != 0
}

/// How powers of two divide.
pub proof fn powers_divide(sig: nat, k: nat, d: nat)
    ensures
        k <= d ==> (sig * pow2(k)) / pow2(d) == sig / pow2((d - k) as nat),
        k >= d ==> (sig * pow2(k)) / pow2(d) == sig * pow2((k - d) as nat),
{
    lemma_pow2_pos(d);
    lemma_pow2_pos(k);
    if k <= d {
        lemma_pow2_pos((d - k) as nat);
        lemma_pow2_adds((d - k) as nat, k);
        scaling_keeps_a_division(sig, pow2((d - k) as nat), pow2(k));
    }
    if k >= d {
        let m = pow2((k - d) as nat);
        lemma_pow2_adds((k - d) as nat, d);
        let x = sig * m;
        assert(sig * (m * pow2(d)) == x * pow2(d)) by (nonlinear_arith)
            requires
                x == sig * m,
        ;
        lemma_fundamental_div_mod_converse((x * pow2(d)) as int, pow2(d) as int, x as int, 0);
    }
}

/// The whole part of a double's magnitude, as far as it fits.
pub fn whole_of(bits: u64) -> (r: u64)
    ensures
        r == if whole_part(bits) > u64::MAX {
            u64::MAX as nat
        } else {
            whole_part(bits)
        },
{
    let e: u64 = (bits / 0x10_0000_0000_0000) % 2048;
    let m: u64 = bits % 0x10_0000_0000_0000;
    proof {
        vstd::arithmetic::power2::lemma2_to64();
    }
    if e == 2047 {
        if m != 0 {
            return 0;
        }
        proof {
            lemma_pow2_strictly_increases(64, 1024);
        }
        return u64::MAX;
    }
    let sig: u128 = if e == 0 {
        m as u128
    } else {
        m as u128 + 0x10_0000_0000_0000
    };
    let k: u64 = if e == 0 {
        0
    } else {
        e - 1
    };
    proof {
        assert(pow2(0) == 1);
        assert(double_units(bits) == sig * pow2(k as nat));
        powers_divide(sig as nat, k as nat, 1074);
    }
    if k >= 1074 {
        if k - 1074 > 12 {
            proof {
                lemma_pow2_strictly_increases(12, (k - 1074) as nat);
                let d = pow2((k - 1074) as nat);
                assert(sig * d >= 0x10_0000_0000_0000 * 0x1000) by (nonlinear_arith)
                    requires
                        sig >= 0x10_0000_0000_0000,
                        d >= 0x1000,
                ;
            }
            return u64::MAX;
        }
        let d: u128 = power((k - 1074) as u32);
        proof {
            if k - 1074 < 12 {
                lemma_pow2_strictly_increases((k - 1074) as nat, 12);
            }
            assert(0 <= sig * d <= 0x20_0000_0000_0000 * 0x1000) by (nonlinear_arith)
                requires
                    0 <= sig <= 0x20_0000_0000_0000,
                    0 <= d <= 0x1000,
            ;
        }
        let whole: u128 = sig * d;
        return if whole > u64::MAX as u128 {
            u64::MAX
        } else {
            whole as u64
        };
    }
    if 1074 - k > 64 {
        proof {
            lemma_pow2_strictly_increases(64, (1074 - k) as nat);
            let d = pow2((1074 - k) as nat);
            vstd::arithmetic::div_mod::lemma_basic_div(sig as int, d as int);
        }
        return 0;
    }
    let d: u128 = power((1074 - k) as u32);
    proof {
        lemma_pow2_pos((1074 - k) as nat);
        assert(sig / d <= sig) by (nonlinear_arith)
            requires
                d > 0,
                sig >= 0,
        ;
    }
    (sig / d) as u64
}

/// Whether a double is more than nothing.
pub fn positive(bits: u64) -> (r: bool)
    ensures
        r == is_positive(bits),
{
    let number = (bits / 0x10_0000_0000_0000) % 2048 < 2047 || bits % 0x10_0000_0000_0000 == 0;
    number && bits < 0x8000_0000_0000_0000 && bits != 0
}

/// One hundred, by its bits.
pub const HUNDRED: u64 = 0x4059_0000_0000_0000;

/// A percentage within its bounds, by its bits. Doubles that are not negative
/// are ordered as their bits are.
pub open spec fn percentage(bits: u64) -> u64 {
    if double_negative(bits) || !is_number(bits) {
        0
    } else if bits > HUNDRED {
        HUNDRED
    } else {
        bits
    }
}

/// So many percent of a whole number, worked out as doubles, without what comes
/// after the point.
pub open spec fn percent_part(n: nat, bits: u64) -> nat {
    let share = double_units(percentage(bits));
    let times = rounded(rounded(n, DOUBLE as nat) * share, DOUBLE as nat);
    quotient(times, 100, DOUBLE as nat) / pow2(1074)
}

proof fn a_small_quotient_vanishes(p: nat, k: nat)
    requires
        p < pow2(120),
        k < 900,
    ensures
        quotient(p * pow2(k), 100, DOUBLE as nat) / pow2(1074) == 0,
{
    let n = p * pow2(k);
    lemma_pow2_pos(k);
    lemma_pow2_pos(120);
    lemma_pow2_strictly_increases(k, 900);
    lemma_pow2_adds(120, 900);
    assert(n < pow2(120) * pow2(900)) by (nonlinear_arith)
        requires
            n == p * pow2(k),
            p < pow2(120),
            pow2(k) < pow2(900),
    ;
    lemma_pow2_strictly_increases(1020, 1074);
    a_quotient_is_near(n, 100, DOUBLE as nat);
    lemma_pow2_unfold(1074);
    lemma_pow2_strictly_increases(1020, 1073);
    vstd::arithmetic::power2::lemma2_to64();
    lemma_pow2_strictly_increases(1, 1020);
    assert(quotient(n, 100, DOUBLE as nat) < pow2(1074));
    vstd::arithmetic::div_mod::lemma_basic_div(
        quotient(n, 100, DOUBLE as nat) as int,
        pow2(1074) as int,
    );
}

/// So many percent of a whole number, as far as it fits; the percentage is a
/// double, by its bits.
pub fn percent_of(n: u64, bits: u64) -> (r: u64)
    ensures
        r == if percent_part(n as nat, bits) > u64::MAX {
            u64::MAX as nat
        } else {
            percent_part(n as nat, bits)
        },
{
    let negative = bits >= 0x8000_0000_0000_0000;
    let number = (bits / 0x10_0000_0000_0000) % 2048 < 2047 || bits % 0x10_0000_0000_0000 == 0;
    let share: u64 = if negative || !number {
        0
    } else if bits > HUNDRED {
        HUNDRED
    } else {
        bits
    };
    let e: u64 = share / 0x10_0000_0000_0000;
    let m: u64 = share % 0x10_0000_0000_0000;
    let sig: u128 = if e == 0 {
        m as u128
    } else {
        m as u128 + 0x10_0000_0000_0000
    };
    let k: u64 = if e == 0 {
        0
    } else {
        e - 1
    };
    assert(e <= 0x405);
    let a: u128 = kept_quotient(n as u128, 1, DOUBLE);
    proof {
        a_quotient_is_near(n as nat, 1, DOUBLE as nat);
        assert(0 <= a * sig <= 0x2_0000_0000_0000_0000 * 0x20_0000_0000_0000) by (nonlinear_arith)
            requires
                0 <= a <= 0x2_0000_0000_0000_0000,
                0 <= sig <= 0x20_0000_0000_0000,
        ;
    }
    let p: u128 = kept_quotient(a * sig, 1, DOUBLE);
    proof {
        vstd::arithmetic::power2::lemma2_to64();
        a_quotient_is_near((a * sig) as nat, 1, DOUBLE as nat);
        assert(double_units(share) == sig * pow2(k as nat));
        assert(a * (sig * pow2(k as nat)) == (a * sig) * pow2(k as nat)) by (nonlinear_arith);
        scaling_keeps_a_number((a * sig) as nat, DOUBLE as nat, k as nat);
        assert(pow2(120) == 0x100_0000_0000_0000_0000_0000_0000_0000) by {
            lemma_pow2_adds(64, 56);
            lemma_pow2_adds(32, 24);
        }
    }
    if k < 900 || p == 0 {
        proof {
            if k < 900 {
                a_small_quotient_vanishes(p as nat, k as nat);
            } else {
                assert(0 * pow2(k as nat) == 0);
                nothing_is_kept(100, DOUBLE as nat);
                lemma_pow2_pos(1074);
                vstd::arithmetic::div_mod::lemma_basic_div(0, pow2(1074) as int);
            }
        }
        return 0;
    }
    let j: u32 = if p < 0x1000_0000_0000_0000 {
        60
    } else {
        0
    };
    let scale: u128 = power(j);
    proof {
        assert(pow2(60) == 0x1000_0000_0000_0000) by {
            lemma_pow2_adds(32, 28);
        }
        assert(pow2(52) == 0x10_0000_0000_0000) by {
            lemma_pow2_adds(32, 20);
        }
        assert(0 < p * scale < 0x100_0000_0000_0000_0000_0000_0000_0000) by (nonlinear_arith)
            requires
                0 < p < 0x100_0000_0000_0000_0000_0000_0000_0000,
                scale == 1 || scale == 0x1000_0000_0000_0000 && p < 0x1000_0000_0000_0000,
        ;
        assert(p * scale >= 0x1000_0000_0000_0000) by (nonlinear_arith)
            requires
                scale == 0x1000_0000_0000_0000 && p > 0 || scale == 1 && p >= 0x1000_0000_0000_0000,
        ;
    }
    let q: u128 = kept_quotient(p * scale, 100, DOUBLE);
    let s: u64 = 1074 - k + j as u64;
    proof {
        let rest = (k - j) as nat;
        length_at_least((p * scale) as nat / 100, 52);
        scaling_keeps_a_quotient((p * scale) as nat, 100, DOUBLE as nat, rest);
        lemma_pow2_adds(j as nat, rest);
        assert(p * (scale * pow2(rest)) == (p * scale) * pow2(rest)) by (nonlinear_arith);
        powers_divide(q as nat, rest, 1074);
        a_quotient_is_near((p * scale) as nat, 100, DOUBLE as nat);
    }
    if s > 127 {
        proof {
            lemma_pow2_strictly_increases(120, s as nat);
            vstd::arithmetic::div_mod::lemma_basic_div(q as int, pow2(s as nat) as int);
        }
        return 0;
    }
    let d: u128 = power(s as u32);
    proof {
        lemma_pow2_pos(s as nat);
    }
    let whole: u128 = q / d;
    if whole > u64::MAX as u128 {
        u64::MAX
    } else {
        whole as u64
    }
}

/// A whole number of thousandths, as a double in its units.
pub open spec fn thousandths(n: nat) -> nat {
    quotient(rounded(n, DOUBLE as nat) * pow2(1074), 1000, DOUBLE as nat)
}

/// A time in milliseconds as seconds: the whole seconds and the rest, each a
/// double in its units.
pub open spec fn seconds(ms: nat) -> nat {
    rounded(
        rounded(ms / 1000, DOUBLE as nat) * pow2(1074) + quotient(
            (ms % 1000) * 1_000_000 * pow2(1074),
            1_000_000_000,
            DOUBLE as nat,
        ),
        DOUBLE as nat,
    )
}

/// How many of a double's units make one of those that the seconds of a track
/// are counted in.
pub open spec fn fine() -> nat {
    pow2(1012)
}

/// The fraction of whole numbers, in the coarser units.
fn coarse_quotient(n: u128, d: u128) -> (r: u128)
    requires
        0 < d,
        d <= 1_000_000_000,
        n <= 0x1_0000_0000_0000_0800,
        n > 0 ==> d <= n * 1000,
    ensures
        r * fine() == quotient(n as nat * pow2(1074), d as nat, DOUBLE as nat),
        r <= 2 * (n as nat * 0x4000_0000_0000_0000 / d as nat) + 1,
{
    let unit: u128 = power(62);
    proof {
        vstd::arithmetic::power2::lemma2_to64();
        assert(pow2(62) == 0x4000_0000_0000_0000) by {
            lemma_pow2_adds(32, 30);
        }
        assert(pow2(52) == 0x10_0000_0000_0000) by {
            lemma_pow2_adds(32, 20);
        }
        assert(n * unit == n * 0x4000_0000_0000_0000);
    }
    let r: u128 = kept_quotient(n * unit, d, DOUBLE);
    proof {
        let k = (n * unit) as nat;
        a_quotient_is_near(k, d as nat, DOUBLE as nat);
        lemma_pow2_adds(62, 1012);
        let s = fine();
        assert(n * (unit * s) == k * s) by (nonlinear_arith)
            requires
                k == n * unit,
        ;
        if n > 0 {
            lemma_fundamental_div_mod(k as int, d as int);
            assert(k / (d as nat) >= 0x10_0000_0000_0000) by (nonlinear_arith)
                requires
                    k == n * 0x4000_0000_0000_0000,
                    d <= n * 1000,
                    d > 0,
                    k == d * (k / (d as nat)) + k % (d as nat),
                    k % (d as nat) < d,
            ;
            length_at_least(k / (d as nat), 52);
            scaling_keeps_a_quotient(k, d as nat, DOUBLE as nat, 1012);
        } else {
            nothing_is_kept(d as nat, DOUBLE as nat);
            assert(0 * pow2(1074) == 0 && 0 * s == 0);
        }
    }
    r
}

proof fn a_double_is_near(n: nat)
    requires
        n <= u64::MAX,
    ensures
        rounded(n, DOUBLE as nat) <= n + 2048,
{
    vstd::arithmetic::power2::lemma2_to64();
    a_quotient_is_near(n, 1, DOUBLE as nat);
    assert(n / 1 == n);
    if n > 0 {
        length_bounds(n);
        if length(n) > 64 {
            if length(n) - 1 > 64 {
                lemma_pow2_strictly_increases(64, (length(n) - 1) as nat);
            }
        }
        if length(n) > 53 && length(n) - 53 < 11 {
            lemma_pow2_strictly_increases((length(n) - 53) as nat, 11);
        }
    }
}

/// A whole number of thousandths, in the coarser units.
pub fn thousandths_of(n: u64) -> (r: u128)
    ensures
        r * fine() == thousandths(n as nat),
        r < 0x80_0000_0000_0000_0000_0000_0000_0000,
{
    let a: u128 = kept_quotient(n as u128, 1, DOUBLE);
    proof {
        a_double_is_near(n as nat);
    }
    coarse_quotient(a, 1000)
}

/// A time in milliseconds as seconds, in the coarser units.
pub fn seconds_of(ms: u64) -> (r: u128)
    ensures
        r * fine() == seconds(ms as nat),
        r < 0x100_0000_0000_0000_0000_0000_0000_0000,
{
    let whole: u128 = kept_quotient((ms / 1000) as u128, 1, DOUBLE);
    let unit: u128 = power(62);
    let rest: u64 = ms % 1000;
    let part: u128 = coarse_quotient(rest as u128 * 1_000_000, 1_000_000_000);
    proof {
        vstd::arithmetic::power2::lemma2_to64();
        assert(pow2(62) == 0x4000_0000_0000_0000) by {
            lemma_pow2_adds(32, 30);
        }
        a_double_is_near((ms / 1000) as nat);
        assert(whole * unit == whole * 0x4000_0000_0000_0000);
    }
    let sum: u128 = whole * unit + part;
    let r: u128 = kept_quotient(sum, 1, DOUBLE);
    proof {
        a_quotient_is_near(sum as nat, 1, DOUBLE as nat);
        let s = fine();
        lemma_pow2_adds(62, 1012);
        assert(whole * (unit * s) + part * s == sum * s) by (nonlinear_arith)
            requires
                sum == whole * unit + part,
        ;
        scaling_keeps_a_number(sum as nat, DOUBLE as nat, 1012);
        assert((ms as nat % 1000) * 1_000_000 * pow2(1074) == (rest as nat * 1_000_000) * pow2(
            1074,
        ));
    }
    r
}

/// The sum or the difference of two numbers in the coarser units, as a double.
pub fn kept_number(n: u128) -> (r: u128)
    requires
        n < 0x1000_0000_0000_0000_0000_0000_0000_0000,
    ensures
        r * fine() == rounded(n as nat * fine(), DOUBLE as nat),
        r <= 2 * n + 1,
{
    let r: u128 = kept_quotient(n, 1, DOUBLE);
    proof {
        a_quotient_is_near(n as nat, 1, DOUBLE as nat);
        scaling_keeps_a_number(n as nat, DOUBLE as nat, 1012);
    }
    r
}

/// The whole seconds of a number in the coarser units.
pub fn whole_seconds(n: u128) -> (r: u128)
    ensures
        r == (n as nat * fine()) / pow2(1074),
{
    let unit: u128 = power(62);
    proof {
        powers_divide(n as nat, 1012, 1074);
        lemma_pow2_pos(62);
    }
    n / unit
}

/// The nearest whole number is no further than a half away, and between two it is
/// the even one.
pub proof fn the_nearest_is_a_half_away(n: nat, d: nat)
    requires
        d > 0,
    ensures
        2 * (nearest_even(n, d) * d) <= 2 * n + d,
        2 * n <= 2 * (nearest_even(n, d) * d) + d,
        2 * (nearest_even(n, d) * d) == 2 * n + d || 2 * n == 2 * (nearest_even(n, d) * d) + d
            ==> nearest_even(n, d) % 2 == 0,
        n % d == 0 ==> nearest_even(n, d) * d == n,
{
    let q = (n / d) as int;
    let r = (n % d) as int;
    lemma_fundamental_div_mod(n as int, d as int);
    assert(n == d * q + r);
    assert(q * d == d * q) by (nonlinear_arith);
    assert((q + 1) * d == d * q + d) by (nonlinear_arith);
}

/// Nothing of a way is nothing, and all of it is the way.
pub proof fn a_share_of_nothing_and_of_all(n: nat)
    requires
        n < 0x100_0000,
    ensures
        product(n, 0) == 0,
        product(n, 0x3f80_0000) == n,
{
    lemma_pow2_pos(149);
    vstd::arithmetic::power2::lemma2_to64();
    let one = 0x3f80_0000u32;
    assert(single_exponent(0) == 0 && single_fraction(0) == 0);
    assert(single_units(0) == 0);
    short_numbers_fit(n, 24);
    what_fits_is_kept(n, 24);
    assert(rounded(n, 24) * 0 == 0);
    what_fits_is_kept(0, 24);
    assert(rounded(0, 24) == 0);
    assert(pow2(149) / (2 * pow2(149)) == 0) by (nonlinear_arith)
        requires
            pow2(149) > 0,
    ;
    assert(single_exponent(one) == 127 && single_fraction(one) == 0);
    lemma_pow2_adds(23, 126);
    assert(single_units(one) == pow2(149));
    scaling_keeps_a_number(n, 24, 149);
    let p = n * pow2(149);
    assert((2 * p + pow2(149)) / (2 * pow2(149)) == n) by (nonlinear_arith)
        requires
            p == n * pow2(149),
            pow2(149) > 0,
    ;
}

proof fn short_numbers_fit(n: nat, bits: nat)
    requires
        n < pow2(bits),
    ensures
        length(n) <= bits,
{
    if n > 0 {
        length_bounds(n);
    }
    if n > 0 && length(n) > bits {
        if length(n) - 1 > bits {
            lemma_pow2_strictly_increases(bits, (length(n) - 1) as nat);
        }
    }
}

/// No percent of a track is its start, and a hundred percent or more its end; what
/// is below nothing is nothing.
pub proof fn a_percentage_runs_from_start_to_end(n: nat, bits: u64)
    requires
        n < 0x4000_0000_0000,
    ensures
        percent_part(n, 0) == 0,
        bits >= 0x8000_0000_0000_0000 ==> percent_part(n, bits) == 0,
        0x4059_0000_0000_0000 <= bits <= 0x7ff0_0000_0000_0000 ==> percent_part(n, bits) == n,
{
    lemma_pow2_pos(1074);
    vstd::arithmetic::power2::lemma2_to64();
    vstd::arithmetic::power2::lemma2_to64_rest();
    short_numbers_fit(n, 53);
    what_fits_is_kept(n, 53);
    assert(double_exponent(0) == 0 && double_fraction(0) == 0);
    assert(double_units(0) == 0);
    assert(rounded(n, 53) * 0 == 0);
    what_fits_is_kept(0, 53);
    nothing_is_kept(100, 53);
    assert(quotient(rounded(rounded(n, 53) * 0, 53), 100, 53) == 0);
    assert(0nat / pow2(1074) == 0) by (nonlinear_arith)
        requires
            pow2(1074) > 0,
    ;
    if 0x4059_0000_0000_0000 <= bits <= 0x7ff0_0000_0000_0000 {
        assert(!double_negative(bits));
        assert(is_number(bits)) by {
            assert(bits / 0x10_0000_0000_0000u64 <= 2047);
            if double_exponent(bits) == 2047 {
                assert(bits == 0x7ff0_0000_0000_0000);
            }
        }
        assert(percentage(bits) == HUNDRED);
        assert(double_exponent(HUNDRED) == 1029 && double_fraction(HUNDRED) == 0x9_0000_0000_0000);
        lemma_pow2_adds(46, 1028);
        assert(double_units(HUNDRED) == 100 * pow2(1074)) by {
            assert(0x19_0000_0000_0000nat == 100 * pow2(46));
            assert((100 * pow2(46)) * pow2(1028) == 100 * (pow2(46) * pow2(1028)))
                by (nonlinear_arith);
        }
        assert(n * (100 * pow2(1074)) == (n * 100) * pow2(1074)) by (nonlinear_arith);
        short_numbers_fit(n * 100, 53);
        what_fits_is_kept(n * 100, 53);
        scaling_keeps_a_number(n * 100, 53, 1074);
        let x = n * pow2(1074);
        assert((n * 100) * pow2(1074) == x * 100) by (nonlinear_arith)
            requires
                x == n * pow2(1074),
        ;
        assert((x * 100) / 100 == x);
        let last = place(length(x), 53);
        lemma_pow2_pos((length(x) - 53) as nat);
        assert(last > 0);
        scaling_keeps_the_nearest(x, last, 100);
        assert(100 * last == last * 100);
        assert(x / 1 == x);
        assert(1 * last == last);
        assert(quotient(x * 100, 100, 53) == rounded(x, 53));
        scaling_keeps_a_number(n, 53, 1074);
        assert(x / pow2(1074) == n) by (nonlinear_arith)
            requires
                x == n * pow2(1074),
                pow2(1074) > 0,
        ;
    }
}

/// A number of no more bits than are kept is kept.
pub proof fn short_numbers_are_kept(n: nat, bits: nat)
    requires
        n < pow2(bits),
    ensures
        rounded(n, bits) == n,
{
    short_numbers_fit(n, bits);
    what_fits_is_kept(n, bits);
}

} // verus!
