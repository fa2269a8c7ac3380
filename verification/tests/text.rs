use nonar::text::{blank, contains, decimal_u8, find, matches_at, position, trim};

#[test]
fn find_gives_the_first_occurrence() {
    assert_eq!(find(b"abcabc", b"bc"), Some(1));
    assert_eq!(find(b"abcabc", b"abc"), Some(0));
    assert_eq!(find(b"abcabc", b"cab"), Some(2));
    assert_eq!(find(b"abcabc", b"abcabc"), Some(0));
    assert_eq!(find(b"aaab", b"aab"), Some(1));
}

#[test]
fn find_misses_what_is_not_there() {
    assert_eq!(find(b"abcabc", b"abd"), None);
    assert_eq!(find(b"abc", b"abcd"), None);
    assert_eq!(find(b"", b"a"), None);
}

#[test]
fn the_empty_needle_is_everywhere() {
    assert_eq!(find(b"abc", b""), Some(0));
    assert_eq!(find(b"", b""), Some(0));
    assert!(contains(b"", b""));
    assert!(contains(b"x", b""));
}

#[test]
fn contains_agrees_with_find() {
    assert!(contains(b"alsa_output.usb-SteelSeries_Arctis_Nova_7-00", b"SteelSeries_Arctis_Nova_7"));
    assert!(!contains(b"alsa_output.usb-SteelSeries_Arctis_Nova_7-00", b"Nova_7X"));
    assert!(contains(b"x", b"x"));
    assert!(!contains(b"x", b"y"));
}

#[test]
fn matches_at_looks_at_one_offset() {
    assert!(matches_at(b"abcabc", b"bc", 1));
    assert!(matches_at(b"abcabc", b"bc", 4));
    assert!(!matches_at(b"abcabc", b"bc", 0));
    assert!(matches_at(b"abc", b"", 3));
}

#[test]
fn position_finds_the_next_byte_or_the_end() {
    assert_eq!(position(b"a\tb\tc", 0, b'\t'), 1);
    assert_eq!(position(b"a\tb\tc", 1, b'\t'), 1);
    assert_eq!(position(b"a\tb\tc", 2, b'\t'), 3);
    assert_eq!(position(b"a\tb\tc", 4, b'\t'), 5);
    assert_eq!(position(b"a\tb\tc", 5, b'\t'), 5);
    assert_eq!(position(b"", 0, b'\t'), 0);
}

#[test]
fn trim_drops_blanks_at_both_ends_only() {
    assert_eq!(trim(b"  a b \n"), b"a b");
    assert_eq!(trim(b"\t\r\n\x0b\x0c x"), b"x");
    assert_eq!(trim(b"x"), b"x");
    assert_eq!(trim(b""), b"");
    assert_eq!(trim(b" \n\t "), b"");
    assert_eq!(trim(b"\x08x\x0e"), b"\x08x\x0e");
}

#[test]
fn blank_bytes() {
    for b in 0u8..=255 {
        let expected = b == b' ' || (9..=13).contains(&b);
        assert_eq!(blank(b), expected);
    }
}

#[test]
fn decimal_of_every_byte() {
    for v in 0u8..=255 {
        assert_eq!(decimal_u8(v), format!("{}", v).into_bytes());
    }
}

#[test]
fn decimal_has_no_leading_zeros() {
    assert_eq!(decimal_u8(0), b"0");
    assert_eq!(decimal_u8(7), b"7");
    assert_eq!(decimal_u8(10), b"10");
    assert_eq!(decimal_u8(100), b"100");
    assert_eq!(decimal_u8(105), b"105");
    assert_eq!(decimal_u8(255), b"255");
}
