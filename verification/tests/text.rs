use couch_gui::num::{clamp, later_than, next_generation, signum};
use couch_gui::text::{
    integer, ipv4, lines, number, padded, parse, parse_hex, same, split_once, starts_with,
    strip_prefix, trim, words,
};

#[test]
fn a_number_reads_back() {
    for n in [0, 7, 10, 99, 100, 65535, 4_294_967_296] {
        assert_eq!(number(n), n.to_string());
        assert_eq!(parse(&number(n), 0xffff_ffff_ffff), Some(n as i64));
    }
    for n in [-1, -805, 0, 40, i64::from(i16::MIN)] {
        assert_eq!(integer(n), n.to_string());
        assert_eq!(parse(&integer(n), 32768), Some(n));
    }
    assert_eq!(padded(4), "04");
    assert_eq!(padded(59), "59");
}

#[test]
fn only_a_whole_number_parses() {
    assert_eq!(parse("+5", 100), Some(5));
    for text in ["", "-", "+", "1 ", " 1", "1.5", "0x1", "--1", "12a"] {
        assert_eq!(parse(text, 100), None, "{text:?}");
    }
    assert_eq!(parse("100", 100), Some(100));
    assert_eq!(parse("101", 100), None);
    assert_eq!(parse("99999999999999999999999", 100), None);
    assert_eq!(parse_hex("0101A8C0"), Some(0x0101_a8c0));
    assert_eq!(parse_hex("100000000"), None);
    assert_eq!(parse_hex("g"), None);
}

#[test]
fn text_is_cut_where_asked() {
    assert_eq!(trim(" \t a b\n"), "a b");
    assert_eq!(trim("\u{a0}\u{3000}"), "");
    assert!(same("a", "a") && !same("a", "A"));
    assert!(starts_with("hue:1", "hue:"));
    assert_eq!(strip_prefix("hue:1", "hue:"), Some("1"));
    assert_eq!(strip_prefix("hue", "hue:"), None);
    assert_eq!(split_once("a/b/c", '/'), Some(("a", "b/c")));
    assert_eq!(split_once("abc", '/'), None);
    assert_eq!(lines("a\r\nb\n\nc"), ["a", "b", "", "c"]);
    assert_eq!(lines("a\n"), ["a"]);
    assert_eq!(words("  one two\tthree "), ["one", "two", "three"]);
}

#[test]
fn an_address_has_four_plain_octets() {
    assert_eq!(ipv4("192.168.1.20"), Some(0xc0a8_0114));
    assert_eq!(ipv4("0.0.0.0"), Some(0));
    assert_eq!(ipv4("255.255.255.255"), Some(u32::MAX));
    for text in ["", "1.2.3", "1.2.3.4.5", "256.1.1.1", "01.2.3.4", "1.2.3.+4", "1.2.3.4 ", "sonos.local"] {
        assert_eq!(ipv4(text), None, "{text:?}");
    }
}

#[test]
fn counters_wrap_and_times_do_not() {
    assert_eq!(next_generation(4), 5);
    assert_eq!(next_generation(u64::MAX), 0);
    assert_eq!(later_than(100, 50), 150);
    assert_eq!(later_than(u64::MAX - 1, 50), u64::MAX);
    assert_eq!(clamp(120, 0, 100), 100);
    assert_eq!(clamp(-3, 0, 100), 0);
    assert_eq!([signum(-9), signum(0), signum(9)], [-1, 0, 1]);
}
