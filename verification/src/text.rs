//! Text helpers: comparison, trimming, splitting, and decimal numbers.
use vstd::prelude::*;

verus! {

/// Whether a character has the Unicode `White_Space` property.
pub open spec fn blank(c: char) -> bool {
    ||| '\u{9}' <= c <= '\u{d}'
    ||| c == ' '
    ||| c == '\u{85}'
    ||| c == '\u{a0}'
    ||| c == '\u{1680}'
    ||| '\u{2000}' <= c <= '\u{200a}'
    ||| c == '\u{2028}'
    ||| c == '\u{2029}'
    ||| c == '\u{202f}'
    ||| c == '\u{205f}'
    ||| c == '\u{3000}'
}

/// The text without the blanks it begins with.
pub open spec fn trimmed_start(s: Seq<char>) -> Seq<char>
    decreases s.len(),
{
    if s.len() > 0 && blank(s[0]) {
        trimmed_start(s.subrange(1, s.len() as int))
    } else {
        s
    }
}

/// The text without the blanks it ends with.
pub open spec fn trimmed_end(s: Seq<char>) -> Seq<char>
    decreases s.len(),
{
    if s.len() > 0 && blank(s.last()) {
        trimmed_end(s.drop_last())
    } else {
        s
    }
}

/// The text without the blanks around it.
pub open spec fn trimmed(s: Seq<char>) -> Seq<char> {
    trimmed_end(trimmed_start(s))
}

/// Whether `s` begins with `prefix`.
pub open spec fn begins(s: Seq<char>, prefix: Seq<char>) -> bool {
    prefix.len() <= s.len() && s.subrange(0, prefix.len() as int) == prefix
}

/// What follows a prefix of the given length.
pub open spec fn after(s: Seq<char>, n: nat) -> Seq<char> {
    s.subrange(n as int, s.len() as int)
}

/// The position of the first `c`, or the length where there is none.
pub open spec fn first_of(s: Seq<char>, c: char) -> nat
    decreases s.len(),
{
    if s.len() == 0 || s[0] == c {
        0
    } else {
        1 + first_of(s.subrange(1, s.len() as int), c)
    }
}

/// The first place of a character is no further than the end.
pub proof fn first_is_at_most(s: Seq<char>, c: char)
    ensures
        first_of(s, c) <= s.len(),
    decreases s.len(),
{
    if s.len() > 0 && s[0] != c {
        first_is_at_most(s.subrange(1, s.len() as int), c);
    }
}

/// The one-character text of a decimal digit.
pub open spec fn digit(d: nat) -> Seq<char> {
    if d == 0 {
        "0"@
    } else if d == 1 {
        "1"@
    } else if d == 2 {
        "2"@
    } else if d == 3 {
        "3"@
    } else if d == 4 {
        "4"@
    } else if d == 5 {
        "5"@
    } else if d == 6 {
        "6"@
    } else if d == 7 {
        "7"@
    } else if d == 8 {
        "8"@
    } else {
        "9"@
    }
}

/// A natural number in decimal, without leading zeros.
pub open spec fn decimal(n: nat) -> Seq<char>
    decreases n,
{
    if n < 10 {
        digit(n)
    } else {
        decimal(n / 10) + digit(n % 10)
    }
}

/// An integer in decimal, with a hyphen before a negative one.
pub open spec fn signed_decimal(n: int) -> Seq<char> {
    if n < 0 {
        "-"@ + decimal((-n) as nat)
    } else {
        decimal(n as nat)
    }
}

/// A number in decimal with a zero in front of a single digit.
pub open spec fn two_digits(n: nat) -> Seq<char> {
    if n < 10 {
        "0"@ + decimal(n)
    } else {
        decimal(n)
    }
}

/// Whether two texts hold the same characters.
pub fn same(a: &str, b: &str) -> (r: bool)
    ensures
        r == (a@ == b@),
{
    a.to_owned() == b.to_owned()
}

/// The characters of a text.
pub fn letters(s: &str) -> (r: Vec<char>)
    ensures
        r@ == s@,
{
    let mut out: Vec<char> = Vec::new();
    for c in iter: s.chars()
        invariant
            iter.seq() == s@,
            out@ == s@.take(iter.index() as int),
    {
        out.push(c);
    }
    out
}

/// Whether a character has the Unicode `White_Space` property.
pub fn is_blank(c: char) -> (r: bool)
    ensures
        r == blank(c),
{
    ('\u{9}' <= c && c <= '\u{d}') || c == ' ' || c == '\u{85}' || c == '\u{a0}' || c == '\u{1680}'
        || ('\u{2000}' <= c && c <= '\u{200a}') || c == '\u{2028}' || c == '\u{2029}'
        || c == '\u{202f}' || c == '\u{205f}' || c == '\u{3000}'
}

/// The text without the blanks around it.
pub fn trim(s: &str) -> (r: &str)
    ensures
        r@ == trimmed(s@),
{
    let chars: Vec<char> = letters(s);
    let n: usize = chars.len();
    let mut from: usize = 0;
    assert(s@.subrange(0, n as int) =~= s@);
    while from < n && is_blank(chars[from])
        invariant
            chars@ == s@,
            n == chars@.len(),
            from <= n,
            trimmed_start(s@) == trimmed_start(s@.subrange(from as int, n as int)),
        decreases n - from,
    {
        assert(s@.subrange(from as int, n as int).subrange(1, n - from) =~= s@.subrange(
            from + 1,
            n as int,
        ));
        from = from + 1;
    }
    let mut to: usize = n;
    let ghost body = s@.subrange(from as int, n as int);
    while from < to && is_blank(chars[to - 1])
        invariant
            chars@ == s@,
            n == chars@.len(),
            from <= to <= n,
            trimmed_end(body) == trimmed_end(s@.subrange(from as int, to as int)),
        decreases to,
    {
        assert(s@.subrange(from as int, to as int).drop_last() =~= s@.subrange(
            from as int,
            to - 1,
        ));
        to = to - 1;
    }
    assert(s@.subrange(from as int, n as int) =~= trimmed_start(s@));
    s.substring_char(from, to)
}

/// Whether `s` begins with `prefix`.
pub fn starts_with(s: &str, prefix: &str) -> (r: bool)
    ensures
        r == begins(s@, prefix@),
{
    let n: usize = prefix.unicode_len();
    if s.unicode_len() < n {
        false
    } else {
        same(s.substring_char(0, n), prefix)
    }
}

/// What follows `prefix`, or nothing where `s` does not begin with it.
pub fn strip_prefix<'a>(s: &'a str, prefix: &str) -> (r: Option<&'a str>)
    ensures
        r is Some == begins(s@, prefix@),
        r matches Some(rest) ==> rest@ == after(s@, prefix@.len()) && s@ == prefix@ + rest@,
{
    if starts_with(s, prefix) {
        let rest = s.substring_char(prefix.unicode_len(), s.unicode_len());
        assert(s@ =~= prefix@ + rest@);
        Some(rest)
    } else {
        None
    }
}

/// The text before and after the first `c`, or nothing where there is none.
pub fn split_once<'a>(s: &'a str, c: char) -> (r: Option<(&'a str, &'a str)>)
    ensures
        r is Some == (first_of(s@, c) < s@.len()),
        r matches Some((head, tail)) ==> {
            &&& head@ == s@.subrange(0, first_of(s@, c) as int)
            &&& tail@ == after(s@, (first_of(s@, c) + 1) as nat)
            &&& s@ == head@.push(c) + tail@
        },
{
    let chars: Vec<char> = letters(s);
    let n: usize = chars.len();
    let mut i: usize = 0;
    assert(s@.subrange(0, n as int) =~= s@);
    while i < n && chars[i] != c
        invariant
            chars@ == s@,
            n == chars@.len(),
            i <= n,
            first_of(s@, c) == i + first_of(s@.subrange(i as int, n as int), c),
        decreases n - i,
    {
        assert(s@.subrange(i as int, n as int).subrange(1, n - i) =~= s@.subrange(i + 1, n as int));
        i = i + 1;
    }
    if i < n {
        let head = s.substring_char(0, i);
        let tail = s.substring_char(i + 1, n);
        assert(s@ =~= head@.push(c) + tail@);
        Some((head, tail))
    } else {
        None
    }
}

/// A decimal digit as text.
fn digit_text(d: u64) -> (r: &'static str)
    requires
        d < 10,
    ensures
        r@ == digit(d as nat),
{
    if d == 0 {
        "0"
    } else if d == 1 {
        "1"
    } else if d == 2 {
        "2"
    } else if d == 3 {
        "3"
    } else if d == 4 {
        "4"
    } else if d == 5 {
        "5"
    } else if d == 6 {
        "6"
    } else if d == 7 {
        "7"
    } else if d == 8 {
        "8"
    } else {
        "9"
    }
}

/// A number in decimal.
pub fn number(n: u64) -> (r: String)
    ensures
        r@ == decimal(n as nat),
    decreases n,
{
    if n < 10 {
        digit_text(n).to_owned()
    } else {
        let mut s = number(n / 10);
        s.append(digit_text(n % 10));
        s
    }
}

/// An integer in decimal, with a hyphen before a negative one.
pub fn integer(n: i64) -> (r: String)
    ensures
        r@ == signed_decimal(n as int),
{
    if n < 0 {
        let mut s = "-".to_owned();
        let magnitude: u64 = if n == i64::MIN {
            9_223_372_036_854_775_808
        } else {
            (-n) as u64
        };
        s.append(number(magnitude).as_str());
        s
    } else {
        number(n as u64)
    }
}

/// A number in decimal with a zero in front of a single digit.
pub fn padded(n: u64) -> (r: String)
    ensures
        r@ == two_digits(n as nat),
{
    if n < 10 {
        let mut s = "0".to_owned();
        s.append(number(n).as_str());
        s
    } else {
        number(n)
    }
}

/// Whether a character is an ASCII digit.
pub open spec fn is_digit(c: char) -> bool {
    '0' <= c <= '9'
}

/// The number that ASCII digits stand for.
pub open spec fn value(s: Seq<char>) -> nat
    decreases s.len(),
{
    if s.len() == 0 {
        0
    } else {
        value(s.drop_last()) * 10 + (s.last() as nat - '0' as nat) as nat
    }
}

/// Whether a text is one or more ASCII digits.
pub open spec fn all_digits(s: Seq<char>) -> bool {
    s.len() > 0 && forall|i: int| 0 <= i < s.len() ==> is_digit(#[trigger] s[i])
}

/// The integer that a text writes: digits, with one sign before them at most.
pub open spec fn parsed(s: Seq<char>) -> Option<int> {
    if all_digits(s) {
        Some(value(s) as int)
    } else if s.len() > 0 && s[0] == '-' && all_digits(after(s, 1)) {
        Some(-(value(after(s, 1)) as int))
    } else if s.len() > 0 && s[0] == '+' && all_digits(after(s, 1)) {
        Some(value(after(s, 1)) as int)
    } else {
        None
    }
}

proof fn value_of_a_prefix(s: Seq<char>, n: int)
    requires
        0 <= n <= s.len(),
        forall|i: int| 0 <= i < s.len() ==> is_digit(#[trigger] s[i]),
    ensures
        value(s.take(n)) <= value(s),
    decreases s.len(),
{
    if n == s.len() {
        assert(s.take(n) =~= s);
    } else {
        assert(s.drop_last().take(n) =~= s.take(n));
        value_of_a_prefix(s.drop_last(), n);
    }
}

/// The digits of a text from a place on, as a number no larger than `most`.
fn digits(chars: &Vec<char>, from: usize, most: u64) -> (r: Option<u64>)
    requires
        from <= chars@.len(),
        most <= 0xffff_ffff_ffff,
    ensures
        r is Some == (all_digits(after(chars@, from as nat)) && value(after(chars@, from as nat))
            <= most),
        r matches Some(v) ==> v == value(after(chars@, from as nat)),
{
    let ghost s = after(chars@, from as nat);
    if from == chars.len() {
        return None;
    }
    let mut v: u64 = 0;
    let mut i: usize = from;
    assert(s.take(0) =~= Seq::<char>::empty());
    while i < chars.len()
        invariant
            from <= i <= chars@.len(),
            s == after(chars@, from as nat),
            v == value(s.take(i - from)),
            v <= most <= 0xffff_ffff_ffff,
            forall|j: int| 0 <= j < i - from ==> is_digit(#[trigger] s[j]),
        decreases chars.len() - i,
    {
        let c: char = chars[i];
        assert(s[i - from] == c);
        if c < '0' || c > '9' {
            return None;
        }
        assert(s.take(i - from + 1).drop_last() =~= s.take(i - from));
        v = v * 10 + (c as u64 - '0' as u64);
        i = i + 1;
        if v > most {
            proof {
                if all_digits(s) {
                    value_of_a_prefix(s, i - from);
                }
            }
            return None;
        }
    }
    assert(s.take(i - from) =~= s);
    Some(v)
}

/// The integer that a text writes, where it lies between `-most` and `most`.
pub fn parse(s: &str, most: u64) -> (r: Option<i64>)
    requires
        most <= 0xffff_ffff_ffff,
    ensures
        match parsed(s@) {
            Some(n) => if -(most as int) <= n <= most {
                r == Some(n as i64)
            } else {
                r is None
            },
            None => r is None,
        },
{
    let chars: Vec<char> = letters(s);
    assert(after(s@, 0) =~= s@);
    if chars.len() == 0 {
        return None;
    }
    let first: char = chars[0];
    if first == '-' {
        match digits(&chars, 1, most) {
            Some(v) => Some(-(v as i64)),
            None => None,
        }
    } else if first == '+' {
        match digits(&chars, 1, most) {
            Some(v) => Some(v as i64),
            None => None,
        }
    } else {
        match digits(&chars, 0, most) {
            Some(v) => Some(v as i64),
            None => None,
        }
    }
}

proof fn one_digit(d: nat)
    requires
        d < 10,
    ensures
        digit(d).len() == 1,
        is_digit(digit(d)[0]),
        digit(d)[0] as nat - '0' as nat == d,
{
    reveal_strlit("0");
    reveal_strlit("1");
    reveal_strlit("2");
    reveal_strlit("3");
    reveal_strlit("4");
    reveal_strlit("5");
    reveal_strlit("6");
    reveal_strlit("7");
    reveal_strlit("8");
    reveal_strlit("9");
}

/// A number written in decimal reads back as the same number.
pub proof fn decimal_reads_back(n: nat)
    ensures
        all_digits(decimal(n)),
        value(decimal(n)) == n,
    decreases n,
{
    if n < 10 {
        one_digit(n);
        let s = digit(n);
        assert(s.drop_last() =~= Seq::<char>::empty());
        assert(value(s.drop_last()) == 0);
    } else {
        decimal_reads_back(n / 10);
        one_digit(n % 10);
        let s = decimal(n);
        assert(s.drop_last() =~= decimal(n / 10));
        assert(s.last() == digit(n % 10)[0]);
    }
}

/// An integer written in decimal reads back as the same integer.
pub proof fn integer_reads_back(n: int)
    ensures
        parsed(signed_decimal(n)) == Some(n),
{
    if n < 0 {
        decimal_reads_back((-n) as nat);
        reveal_strlit("-");
        let s = signed_decimal(n);
        assert(s[0] == '-');
        assert(after(s, 1) =~= decimal((-n) as nat));
        assert(!is_digit(s[0]));
    } else {
        decimal_reads_back(n as nat);
    }
}

/// The value of a hexadecimal digit.
pub open spec fn hex_digit(c: char) -> Option<nat> {
    if '0' <= c <= '9' {
        Some((c as nat - '0' as nat) as nat)
    } else if 'a' <= c <= 'f' {
        Some((c as nat - 'a' as nat + 10) as nat)
    } else if 'A' <= c <= 'F' {
        Some((c as nat - 'A' as nat + 10) as nat)
    } else {
        None
    }
}

/// The number that hexadecimal digits stand for.
pub open spec fn hex_value(s: Seq<char>) -> Option<nat>
    decreases s.len(),
{
    if s.len() == 0 {
        Some(0)
    } else {
        match (hex_value(s.drop_last()), hex_digit(s.last())) {
            (Some(v), Some(d)) => Some(v * 16 + d),
            _ => None,
        }
    }
}

/// The number that a text writes in hexadecimal: one digit at least, with a plus
/// before them at most.
pub open spec fn hexadecimal(s: Seq<char>) -> Option<nat> {
    let body = if s.len() > 0 && s[0] == '+' {
        after(s, 1)
    } else {
        s
    };
    if body.len() == 0 {
        None
    } else {
        hex_value(body)
    }
}

fn hex_digit_of(c: char) -> (r: Option<u32>)
    ensures
        match hex_digit(c) {
            Some(d) => r matches Some(v) && v == d && d < 16,
            None => r is None,
        },
{
    if '0' <= c && c <= '9' {
        Some(c as u32 - '0' as u32)
    } else if 'a' <= c && c <= 'f' {
        Some(c as u32 - 'a' as u32 + 10)
    } else if 'A' <= c && c <= 'F' {
        Some(c as u32 - 'A' as u32 + 10)
    } else {
        None
    }
}

proof fn hex_prefix(s: Seq<char>, n: int)
    requires
        0 <= n <= s.len(),
    ensures
        hex_value(s) is Some ==> hex_value(s.take(n)) is Some && hex_value(s.take(n))->0
            <= hex_value(s)->0,
    decreases s.len(),
{
    if n == s.len() {
        assert(s.take(n) =~= s);
    } else {
        assert(s.drop_last().take(n) =~= s.take(n));
        hex_prefix(s.drop_last(), n);
    }
}

/// The number that a text writes in hexadecimal, where it fits 32 bits.
pub fn parse_hex(s: &str) -> (r: Option<u32>)
    ensures
        match hexadecimal(s@) {
            Some(n) => if n <= u32::MAX {
                r == Some(n as u32)
            } else {
                r is None
            },
            None => r is None,
        },
{
    let chars: Vec<char> = letters(s);
    let n: usize = chars.len();
    let from: usize = if n > 0 && chars[0] == '+' {
        1
    } else {
        0
    };
    let ghost body = after(s@, from as nat);
    assert(after(s@, 0) =~= s@);
    if from == n {
        return None;
    }
    let mut v: u32 = 0;
    let mut i: usize = from;
    assert(body.take(0) =~= Seq::<char>::empty());
    while i < n
        invariant
            chars@ == s@,
            n == s@.len(),
            from <= i <= n,
            body == after(s@, from as nat),
            hexadecimal(s@) == hex_value(body),
            hex_value(body.take(i - from)) == Some(v as nat),
        decreases n - i,
    {
        let ghost step = body.take(i - from + 1);
        proof {
            assert(step.drop_last() =~= body.take(i - from));
            assert(step.last() == chars@[i as int]);
            hex_prefix(body, i - from + 1);
        }
        match hex_digit_of(chars[i]) {
            Some(d) => {
                let wide: u64 = v as u64 * 16 + d as u64;
                assert(hex_value(step) == Some(wide as nat));
                if wide > 0xffff_ffff {
                    return None;
                }
                v = wide as u32;
            },
            None => {
                return None;
            },
        }
        i = i + 1;
    }
    assert(body.take(n - from) =~= body);
    Some(v)
}

/// A line without the carriage return that stood before its line feed.
pub open spec fn chomped(line: Seq<char>) -> Seq<char> {
    if line.len() > 0 && line.last() == '\r' {
        line.drop_last()
    } else {
        line
    }
}

/// The lines of a text. The last one needs no line feed behind it.
pub open spec fn lines_of(s: Seq<char>) -> Seq<Seq<char>>
    decreases s.len(),
{
    let n = first_of(s, '\n');
    if s.len() == 0 {
        Seq::empty()
    } else if n >= s.len() {
        seq![s]
    } else {
        seq![chomped(s.subrange(0, n as int))] + lines_of(after(s, (n + 1) as nat))
    }
}

/// The lines of a text.
pub fn lines<'a>(s: &'a str) -> (r: Vec<&'a str>)
    ensures
        r@.map_values(|line: &str| line@) == lines_of(s@),
{
    let mut out: Vec<&'a str> = Vec::new();
    let mut left: &'a str = s;
    assert(out@.map_values(|line: &str| line@) + lines_of(s@) =~= lines_of(s@));
    loop
        invariant
            out@.map_values(|line: &str| line@) + lines_of(left@) == lines_of(s@),
        decreases left@.len(),
    {
        if left.is_empty() {
            assert(out@.map_values(|line: &str| line@) + Seq::<Seq<char>>::empty()
                =~= out@.map_values(|line: &str| line@));
            return out;
        }
        let ghost before = out@.map_values(|line: &str| line@);
        match split_once(left, '\n') {
            None => {
                out.push(left);
                proof {
                    assert(out@.map_values(|line: &str| line@) =~= before + seq![left@]);
                }
                return out;
            },
            Some((head, tail)) => {
                let n: usize = head.unicode_len();
                let line = if n > 0 && head.get_char(n - 1) == '\r' {
                    head.substring_char(0, n - 1)
                } else {
                    head
                };
                assert(line@ =~= chomped(head@));
                out.push(line);
                proof {
                    assert(out@.map_values(|line: &str| line@) + lines_of(tail@) =~= before + (seq![
                        chomped(head@),
                    ] + lines_of(tail@)));
                }
                left = tail;
            },
        }
    }
}

/// How many characters stand before the first blank.
pub open spec fn word_len(s: Seq<char>) -> nat
    decreases s.len(),
{
    if s.len() == 0 || blank(s[0]) {
        0
    } else {
        1 + word_len(s.subrange(1, s.len() as int))
    }
}

/// The words of a text: what stands between blanks.
pub open spec fn words_of(s: Seq<char>) -> Seq<Seq<char>>
    decreases s.len(),
    via words_shrink
{
    if s.len() == 0 {
        Seq::empty()
    } else if blank(s[0]) {
        words_of(s.subrange(1, s.len() as int))
    } else {
        seq![s.subrange(0, word_len(s) as int)] + words_of(after(s, word_len(s)))
    }
}

#[via_fn]
proof fn words_shrink(s: Seq<char>) {
    word_len_bound(s);
}

proof fn word_len_bound(s: Seq<char>)
    ensures
        word_len(s) <= s.len(),
    decreases s.len(),
{
    if s.len() > 0 && !blank(s[0]) {
        word_len_bound(s.subrange(1, s.len() as int));
    }
}

/// The words of a text: what stands between blanks.
pub fn words<'a>(s: &'a str) -> (r: Vec<&'a str>)
    ensures
        r@.map_values(|word: &str| word@) == words_of(s@),
{
    let chars: Vec<char> = letters(s);
    let n: usize = chars.len();
    let mut out: Vec<&'a str> = Vec::new();
    let mut i: usize = 0;
    assert(s@.subrange(0, n as int) =~= s@);
    assert(out@.map_values(|word: &str| word@) + words_of(s@) =~= words_of(s@));
    while i < n
        invariant
            chars@ == s@,
            n == s@.len(),
            i <= n,
            out@.map_values(|word: &str| word@) + words_of(s@.subrange(i as int, n as int))
                == words_of(s@),
        decreases n - i,
    {
        let ghost rest = s@.subrange(i as int, n as int);
        if is_blank(chars[i]) {
            assert(rest.subrange(1, rest.len() as int) =~= s@.subrange(i + 1, n as int));
            i = i + 1;
        } else {
            let mut to: usize = i + 1;
            proof {
                assert(rest.subrange(1, rest.len() as int) =~= s@.subrange(i + 1, n as int));
            }
            while to < n && !is_blank(chars[to])
                invariant
                    chars@ == s@,
                    n == s@.len(),
                    i < to <= n,
                    rest == s@.subrange(i as int, n as int),
                    word_len(rest) == (to - i) + word_len(s@.subrange(to as int, n as int)),
                decreases n - to,
            {
                assert(s@.subrange(to as int, n as int).subrange(1, n - to) =~= s@.subrange(
                    to + 1,
                    n as int,
                ));
                to = to + 1;
            }
            let word = s.substring_char(i, to);
            let ghost before = out@.map_values(|word: &str| word@);
            out.push(word);
            proof {
                assert(word_len(s@.subrange(to as int, n as int)) == 0);
                assert(rest.subrange(0, to - i) =~= word@);
                assert(after(rest, (to - i) as nat) =~= s@.subrange(to as int, n as int));
                assert(out@.map_values(|word: &str| word@) + words_of(s@.subrange(to as int, n as int))
                    =~= before + (seq![word@] + words_of(s@.subrange(to as int, n as int))));
            }
            i = to;
        }
    }
    assert(s@.subrange(n as int, n as int) =~= Seq::<char>::empty());
    assert(out@.map_values(|word: &str| word@) + Seq::<Seq<char>>::empty() =~= out@.map_values(
        |word: &str| word@,
    ));
    out
}

/// The number that one to three digits stand for, with no zero in front.
pub open spec fn octet(s: Seq<char>) -> Option<nat> {
    if all_digits(s) && s.len() <= 3 && (s.len() == 1 || s[0] != '0') && value(s) <= 255 {
        Some(value(s))
    } else {
        None
    }
}

/// The texts before and after the first dot, where there is one.
pub open spec fn at_dot(s: Seq<char>) -> Option<(Seq<char>, Seq<char>)> {
    if first_of(s, '.') < s.len() {
        Some((s.subrange(0, first_of(s, '.') as int), after(s, first_of(s, '.') + 1)))
    } else {
        None
    }
}

/// The IPv4 address that a text writes: four numbers with dots between.
pub open spec fn ipv4_of(s: Seq<char>) -> Option<nat> {
    match at_dot(s) {
        None => None,
        Some((a, rest)) => match at_dot(rest) {
            None => None,
            Some((b, rest)) => match at_dot(rest) {
                None => None,
                Some((c, d)) => match (octet(a), octet(b), octet(c), octet(d)) {
                    (Some(a), Some(b), Some(c), Some(d)) => Some(
                        ((a * 256 + b) * 256 + c) * 256 + d,
                    ),
                    _ => None,
                },
            },
        },
    }
}

fn parse_octet(s: &str) -> (r: Option<u32>)
    ensures
        r is Some == octet(s@) is Some,
        r matches Some(n) ==> octet(s@) == Some(n as nat) && n <= 255,
{
    let chars: Vec<char> = letters(s);
    assert(after(s@, 0) =~= s@);
    match digits(&chars, 0, 255) {
        Some(n) => if chars.len() <= 3 && (chars.len() == 1 || chars[0] != '0') {
            Some(n as u32)
        } else {
            None
        },
        None => None,
    }
}

/// The IPv4 address that a text writes.
pub fn ipv4(s: &str) -> (r: Option<u32>)
    ensures
        r is Some == ipv4_of(s@) is Some,
        r matches Some(n) ==> ipv4_of(s@) == Some(n as nat),
{
    match split_once(s, '.') {
        Some((a, rest)) => match split_once(rest, '.') {
            Some((b, rest)) => match split_once(rest, '.') {
                Some((c, d)) => match (
                    parse_octet(a),
                    parse_octet(b),
                    parse_octet(c),
                    parse_octet(d),
                ) {
                    (Some(a), Some(b), Some(c), Some(d)) => Some(
                        ((a * 256 + b) * 256 + c) * 256 + d,
                    ),
                    _ => None,
                },
                None => None,
            },
            None => None,
        },
        None => None,
    }
}

/// What is left of a text has no blank at either end, and what has none is left
/// as it is.
pub proof fn a_trimmed_text_has_no_blank_ends(s: Seq<char>)
    ensures
        trimmed(s).len() > 0 ==> !blank(trimmed(s)[0]) && !blank(trimmed(s).last()),
        s.len() > 0 && !blank(s[0]) && !blank(s.last()) ==> trimmed(s) == s,
        trimmed(s).len() <= s.len(),
{
    no_blank_start(s);
    no_blank_end(trimmed_start(s));
}

proof fn no_blank_start(s: Seq<char>)
    ensures
        trimmed_start(s).len() > 0 ==> !blank(trimmed_start(s)[0]),
        trimmed_start(s).len() <= s.len(),
    decreases s.len(),
{
    if s.len() > 0 && blank(s[0]) {
        no_blank_start(s.subrange(1, s.len() as int));
    }
}

proof fn no_blank_end(s: Seq<char>)
    ensures
        trimmed_end(s).len() > 0 ==> !blank(trimmed_end(s).last()) && trimmed_end(s)[0] == s[0],
        trimmed_end(s).len() <= s.len(),
    decreases s.len(),
{
    if s.len() > 0 && blank(s.last()) {
        no_blank_end(s.drop_last());
    }
}

/// The first mark is one, and there is none before it.
pub proof fn the_first_mark_is_the_first(s: Seq<char>, c: char)
    ensures
        first_of(s, c) < s.len() ==> s[first_of(s, c) as int] == c,
        forall|i: int| 0 <= i < first_of(s, c) ==> #[trigger] s[i] != c,
        first_of(s, c) <= s.len(),
    decreases s.len(),
{
    if s.len() > 0 && s[0] != c {
        let rest = s.subrange(1, s.len() as int);
        the_first_mark_is_the_first(rest, c);
        assert forall|i: int| 0 <= i < first_of(s, c) implies #[trigger] s[i] != c by {
            if i > 0 {
                assert(rest[i - 1] != c);
            }
        }
    }
}

/// A text begins with a prefix just where it is the prefix and something more.
pub proof fn a_text_begins_with_its_prefix(prefix: Seq<char>, rest: Seq<char>)
    ensures
        begins(prefix + rest, prefix),
        after(prefix + rest, prefix.len()) == rest,
{
    assert((prefix + rest).subrange(0, prefix.len() as int) =~= prefix);
    assert((prefix + rest).subrange(prefix.len() as int, (prefix + rest).len() as int) =~= rest);
}

/// A number below a hundred in two digits is two digits, and reads back.
pub proof fn two_digits_are_two(n: nat)
    requires
        n < 100,
    ensures
        two_digits(n).len() == 2,
        all_digits(two_digits(n)),
        value(two_digits(n)) == n,
{
    decimal_reads_back(n);
    reveal_strlit("0");
    reveal_strlit("1");
    reveal_strlit("2");
    reveal_strlit("3");
    reveal_strlit("4");
    reveal_strlit("5");
    reveal_strlit("6");
    reveal_strlit("7");
    reveal_strlit("8");
    reveal_strlit("9");
    reveal_with_fuel(decimal, 2);
    let d = decimal(n);
    if n < 10 {
        let s = "0"@ + d;
        assert(s.drop_last() =~= "0"@);
        assert("0"@.drop_last() =~= Seq::<char>::empty());
        assert(d.drop_last() =~= Seq::<char>::empty());
        reveal_with_fuel(value, 3);
        assert(value("0"@) == 0);
        assert(s.last() == d.last());
        assert forall|i: int| 0 <= i < s.len() implies is_digit(#[trigger] s[i]) by {
            if i > 0 {
                assert(s[i] == d[i - 1]);
            }
        }
    } else {
        assert(digit(n / 10).len() == 1 && digit(n % 10).len() == 1);
    }
}

/// A number is written without leading zeros, in as many digits as it has.
pub proof fn a_byte_is_written_in_three_digits(n: nat)
    requires
        n <= 255,
    ensures
        octet(decimal(n)) == Some(n),
{
    decimal_reads_back(n);
    reveal_strlit("0");
    reveal_strlit("1");
    reveal_strlit("2");
    reveal_strlit("3");
    reveal_strlit("4");
    reveal_strlit("5");
    reveal_strlit("6");
    reveal_strlit("7");
    reveal_strlit("8");
    reveal_strlit("9");
    reveal_with_fuel(decimal, 4);
    assert(digit(n % 10).len() == 1);
    if n >= 10 {
        assert(digit(n / 10 % 10).len() == 1);
    }
}

proof fn no_dots(s: Seq<char>, rest: Seq<char>)
    requires
        all_digits(s),
    ensures
        first_of(s + seq!['.'] + rest, '.') == s.len(),
    decreases s.len(),
{
    let all = s + seq!['.'] + rest;
    assert(is_digit(s[0]));
    assert(all[0] == s[0]);
    let tail = s.subrange(1, s.len() as int);
    assert(all.subrange(1, all.len() as int) =~= tail + seq!['.'] + rest);
    if tail.len() > 0 {
        assert forall|i: int| 0 <= i < tail.len() implies is_digit(#[trigger] tail[i]) by {
            assert(is_digit(s[i + 1]));
        }
        no_dots(tail, rest);
    } else {
        let last = tail + seq!['.'] + rest;
        assert(last[0] == '.');
        assert(first_of(last, '.') == 0);
    }
}

proof fn parts_at_the_dot(s: Seq<char>, rest: Seq<char>)
    requires
        all_digits(s),
    ensures
        at_dot(s + seq!['.'] + rest) == Some((s, rest)),
{
    no_dots(s, rest);
    let all = s + seq!['.'] + rest;
    assert(all.subrange(0, s.len() as int) =~= s);
    assert(all.subrange((s.len() + 1) as int, all.len() as int) =~= rest);
}

/// An address reads as its four bytes, from the first to the last.
pub proof fn an_address_reads_as_its_bytes(a: nat, b: nat, c: nat, d: nat)
    requires
        a <= 255 && b <= 255 && c <= 255 && d <= 255,
    ensures
        ipv4_of(
            decimal(a) + seq!['.'] + (decimal(b) + seq!['.'] + (decimal(c) + seq!['.'] + decimal(
                d,
            ))),
        ) == Some(((a * 256 + b) * 256 + c) * 256 + d),
{
    a_byte_is_written_in_three_digits(a);
    a_byte_is_written_in_three_digits(b);
    a_byte_is_written_in_three_digits(c);
    a_byte_is_written_in_three_digits(d);
    let three = decimal(c) + seq!['.'] + decimal(d);
    let two = decimal(b) + seq!['.'] + three;
    parts_at_the_dot(decimal(c), decimal(d));
    parts_at_the_dot(decimal(b), three);
    parts_at_the_dot(decimal(a), two);
}

/// A word holds no blank, and is what stands before the next.
pub proof fn a_word_ends_at_a_blank(s: Seq<char>)
    ensures
        word_len(s) <= s.len(),
        forall|i: int| 0 <= i < word_len(s) ==> !blank(#[trigger] s[i]),
        word_len(s) < s.len() ==> blank(s[word_len(s) as int]),
    decreases s.len(),
{
    if s.len() > 0 && !blank(s[0]) {
        let rest = s.subrange(1, s.len() as int);
        a_word_ends_at_a_blank(rest);
        assert forall|i: int| 0 <= i < word_len(s) implies !blank(#[trigger] s[i]) by {
            if i > 0 {
                assert(!blank(rest[i - 1]));
            }
        }
    }
}

/// A hexadecimal digit counts up to fifteen, in either case.
pub proof fn a_hexadecimal_digit_has_its_value(c: char)
    ensures
        hex_digit('0') == Some(0nat) && hex_digit('9') == Some(9nat),
        hex_digit('a') == Some(10nat) && hex_digit('f') == Some(15nat),
        hex_digit('A') == Some(10nat) && hex_digit('F') == Some(15nat),
        hex_digit(c) matches Some(d) ==> d < 16,
{
}

/// Another hexadecimal digit makes the number sixteen times as large, and more by
/// the digit.
pub proof fn hexadecimal_digits_add_up(s: Seq<char>, c: char, v: nat, d: nat)
    requires
        hex_value(s) == Some(v),
        hex_digit(c) == Some(d),
    ensures
        hex_value(s.push(c)) == Some(v * 16 + d),
{
    assert(s.push(c).drop_last() =~= s);
}

/// A line ends at the end of the line.
pub proof fn a_line_ends_at_its_end(line: Seq<char>, rest: Seq<char>)
    requires
        !line.contains('\n'),
        line.len() == 0 || line.last() != '\r',
    ensures
        lines_of(line + seq!['\n'] + rest) == seq![line] + lines_of(rest),
        line.len() > 0 ==> lines_of(line) == seq![line],
{
    let all = line + seq!['\n'] + rest;
    a_line_has_no_end(line, rest);
    no_end(line);
    assert(all.subrange(0, line.len() as int) =~= line);
    assert(all.subrange((line.len() + 1) as int, all.len() as int) =~= rest);
}

proof fn a_line_has_no_end(line: Seq<char>, rest: Seq<char>)
    requires
        !line.contains('\n'),
    ensures
        first_of(line + seq!['\n'] + rest, '\n') == line.len(),
    decreases line.len(),
{
    let all = line + seq!['\n'] + rest;
    if line.len() == 0 {
        assert(all[0] == '\n');
    } else {
        let tail = line.subrange(1, line.len() as int);
        assert(line[0] != '\n');
        assert(all[0] == line[0]);
        assert forall|i: int| 0 <= i < tail.len() implies tail[i] != '\n' by {
            assert(line[i + 1] != '\n');
        }
        a_line_has_no_end(tail, rest);
        assert(all.subrange(1, all.len() as int) =~= tail + seq!['\n'] + rest);
    }
}

proof fn no_end(line: Seq<char>)
    requires
        !line.contains('\n'),
    ensures
        first_of(line, '\n') == line.len(),
    decreases line.len(),
{
    if line.len() > 0 {
        let tail = line.subrange(1, line.len() as int);
        assert(line[0] != '\n');
        assert forall|i: int| 0 <= i < tail.len() implies tail[i] != '\n' by {
            assert(line[i + 1] != '\n');
        }
        no_end(tail);
    }
}

} // verus!
