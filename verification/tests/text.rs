use perfjail::util::text::find_line;
use perfjail::util::text::line_end_from;
use perfjail::util::text::line_holds;
use perfjail::util::text::needle_stands_at;
use perfjail::util::text::nth_word;
use perfjail::util::text::parse_digits;
use perfjail::util::text::parse_i32;
use perfjail::util::text::parse_u64;
use perfjail::util::text::skip_spaces_from;
use perfjail::util::text::skip_word_from;

#[test]
fn words_are_runs_between_white_space() {
    let text = b"  one\ttwo\n\x0b\x0c\rthree  ";
    assert_eq!(nth_word(text, 0), Some(&b"one"[..]));
    assert_eq!(nth_word(text, 1), Some(&b"two"[..]));
    assert_eq!(nth_word(text, 2), Some(&b"three"[..]));
    assert_eq!(nth_word(text, 3), None);
    assert_eq!(nth_word(text, 1_000), None);
    assert_eq!(nth_word(b"", 0), None);
    assert_eq!(nth_word(b"   ", 0), None);
    assert_eq!(nth_word(b"x", 0), Some(&b"x"[..]));
    assert_eq!(nth_word(b"a\x00b c", 0), Some(&b"a\x00b"[..]));
}

#[test]
fn skipping_stops_at_the_right_place() {
    let text = b"  ab  c";
    assert_eq!(skip_spaces_from(text, 0), 2);
    assert_eq!(skip_spaces_from(text, 2), 2);
    assert_eq!(skip_word_from(text, 2), 4);
    assert_eq!(skip_word_from(text, 4), 4);
    assert_eq!(skip_spaces_from(text, 4), 6);
    assert_eq!(skip_word_from(text, 6), 7);
    assert_eq!(skip_spaces_from(text, 7), 7);
    assert_eq!(line_end_from(b"ab\ncd", 0), 2);
    assert_eq!(line_end_from(b"ab\ncd", 2), 2);
    assert_eq!(line_end_from(b"ab\ncd", 3), 5);
}

#[test]
fn unsigned_numbers_parse_like_decimal_text() {
    assert_eq!(parse_u64(b"0"), Some(0));
    assert_eq!(parse_u64(b"007"), Some(7));
    assert_eq!(parse_u64(b"+42"), Some(42));
    assert_eq!(parse_u64(b"18446744073709551615"), Some(u64::MAX));
    assert_eq!(parse_u64(b"18446744073709551616"), None);
    assert_eq!(parse_u64(b"99999999999999999999999"), None);
    assert_eq!(parse_u64(b""), None);
    assert_eq!(parse_u64(b"+"), None);
    assert_eq!(parse_u64(b"-1"), None);
    assert_eq!(parse_u64(b"++1"), None);
    assert_eq!(parse_u64(b"1 "), None);
    assert_eq!(parse_u64(b"12a"), None);
    assert_eq!(parse_u64(b"1844674407370955161x"), None);
    assert_eq!(parse_digits(b"+1"), None);
    assert_eq!(parse_digits(b"10"), Some(10));
}

#[test]
fn signed_numbers_parse_like_decimal_text() {
    assert_eq!(parse_i32(b"0"), Some(0));
    assert_eq!(parse_i32(b"-0"), Some(0));
    assert_eq!(parse_i32(b"+5"), Some(5));
    assert_eq!(parse_i32(b"-5"), Some(-5));
    assert_eq!(parse_i32(b"2147483647"), Some(i32::MAX));
    assert_eq!(parse_i32(b"-2147483648"), Some(i32::MIN));
    assert_eq!(parse_i32(b"2147483648"), None);
    assert_eq!(parse_i32(b"-2147483649"), None);
    assert_eq!(parse_i32(b"-"), None);
    assert_eq!(parse_i32(b"--1"), None);
    assert_eq!(parse_i32(b"+-1"), None);
    assert_eq!(parse_i32(b""), None);
    assert_eq!(parse_i32(b"1.5"), None);
}

#[test]
fn needles_are_found_where_they_stand() {
    assert!(needle_stands_at(b"VmPeak: 1", 0, b"VmPeak:"));
    assert!(!needle_stands_at(b"VmPeak: 1", 1, b"VmPeak:"));
    assert!(!needle_stands_at(b"VmPea", 0, b"VmPeak:"));
    assert!(needle_stands_at(b"abc", 3, b""));
    assert!(!needle_stands_at(b"abc", 4, b""));
    assert!(line_holds(b"xxPid:yy", b"Pid:"));
    assert!(line_holds(b"Pid:", b"Pid:"));
    assert!(line_holds(b"", b""));
    assert!(!line_holds(b"Pid", b"Pid:"));
    assert!(!line_holds(b"NSpid:", b"Pid:"));
}

#[test]
fn the_first_wanted_line_is_found() {
    let text = b"a: 1\nbb: 2\ncb: 3\n";
    assert_eq!(find_line(text, b"bb", false), Some(&b"bb: 2"[..]));
    assert_eq!(find_line(text, b"b", false), Some(&b"bb: 2"[..]));
    assert_eq!(find_line(text, b"b:", true), Some(&b"bb: 2"[..]));
    assert_eq!(find_line(text, b"cb", true), Some(&b"cb: 3"[..]));
    assert_eq!(find_line(text, b"3", true), Some(&b"cb: 3"[..]));
    assert_eq!(find_line(text, b"b", true), Some(&b"bb: 2"[..]));
    assert_eq!(find_line(text, b"z", true), None);
    assert_eq!(find_line(text, b"1", false), None);
    assert_eq!(find_line(text, b"", false), Some(&b"a: 1"[..]));
    assert_eq!(find_line(b"", b"", false), Some(&b""[..]));
    assert_eq!(find_line(b"", b"x", false), None);
    assert_eq!(find_line(b"x\n", b"\n", true), None);
    assert_eq!(find_line(b"ab\ncd", b"cd", false), Some(&b"cd"[..]));
}
