use oleg::fmt::Formatter;
use oleg::settings::{parse_i64, parse_sd_timeout_list, parse_sd_timeout_message, IntParseError};
use oleg::text::{contains, decimal_string, equals, is_white_space_char, split_char, split_once, starts_with, strip_prefix, trim};

#[test]
fn white_space_matches_std_for_every_char() {
    for u in 0u32..=0x10FFFF {
        if let Some(c) = char::from_u32(u) {
            assert_eq!(is_white_space_char(c), c.is_whitespace(), "char {:#x}", u);
        }
    }
}

#[test]
fn trim_matches_std() {
    let samples = [
        "", " ", "  a  ", "\t\nhello world\r\n", "\u{3000}x\u{2028}", "no-space", " \u{85}mid dle\u{a0} ",
        "\u{200b}zero-width is no space\u{200b}",
    ];
    for s in samples {
        assert_eq!(trim(s), s.trim(), "{:?}", s);
    }
}

#[test]
fn split_once_first_occurrence() {
    assert_eq!(split_once("en hello world", " "), Some(("en".to_owned(), "hello world".to_owned())));
    assert_eq!(split_once("nospace", " "), None);
    assert_eq!(split_once("a###ID###b###ID###c", "###ID###"), Some(("a".to_owned(), "b###ID###c".to_owned())));
    assert_eq!(split_once("ab", ""), Some(("".to_owned(), "ab".to_owned())));
    assert_eq!(split_once("ééx{}y", "{}"), Some(("ééx".to_owned(), "y".to_owned())));
}

#[test]
fn prefixes_and_contains() {
    assert!(starts_with("/oleg hi", "/oleg"));
    assert!(!starts_with("/ole", "/oleg"));
    assert_eq!(strip_prefix("/oleg  hi ", "/oleg"), Some("  hi ".to_owned()));
    assert_eq!(strip_prefix("hi", "/oleg"), None);
    assert!(contains("a{}b", "{}"));
    assert!(!contains("a{b}", "{}"));
    assert!(equals("oleg_a", "oleg_a"));
    assert!(!equals("oleg_a", "oleg_f"));
}

#[test]
fn decimal_string_matches_to_string() {
    for n in [0u64, 7, 10, 99, 100, 12345, u64::MAX] {
        assert_eq!(decimal_string(n), n.to_string());
    }
}

#[test]
fn split_char_matches_std() {
    for s in ["", ",", "1,2,3", "1,,2,", "abc"] {
        let expected: Vec<String> = s.split(',').map(|x| x.to_owned()).collect();
        assert_eq!(split_char(s, ','), expected);
    }
}

#[test]
fn parse_i64_matches_std() {
    let samples = [
        "0", "42", "-42", "+7", "", "+", "-", "12a", "a12", "9223372036854775807", "9223372036854775808",
        "-9223372036854775808", "-9223372036854775809", "99999999999999999999x", " 1", "--1",
        "-100123456789",
    ];
    for s in samples {
        let std_res = s.parse::<i64>();
        match parse_i64(s) {
            Ok(v) => assert_eq!(std_res, Ok(v), "{:?}", s),
            Err(e) => {
                let std_err = std_res.expect_err(s);
                assert_eq!(e.message(), std_err.to_string(), "{:?}", s);
            }
        }
    }
}

#[test]
fn timeout_list_parses_ids() {
    assert_eq!(parse_sd_timeout_list("-1001,42,7"), Ok(vec![-1001, 42, 7]));
    assert_eq!(parse_sd_timeout_list(""), Err(IntParseError::Empty));
    assert_eq!(parse_sd_timeout_list("1,x,9999999999999999999"), Err(IntParseError::InvalidDigit));
    assert_eq!(parse_sd_timeout_list("1,9999999999999999999"), Err(IntParseError::PosOverflow));
}

#[test]
fn formatter_fills_placeholder() {
    let f = Formatter::parse("Wait {} seconds").ok().unwrap();
    assert_eq!(f.format("12"), "Wait 12 seconds");
    let g: Formatter = "{}".parse().ok().unwrap();
    assert_eq!(g.format("x"), "x");
}

#[test]
fn formatter_errors() {
    assert_eq!(Formatter::parse("no placeholder").err(), Some("no `{}` in format string"));
    assert_eq!(Formatter::parse("{} and {}").err(), Some("more than one `{}` in format string"));
    assert!(parse_sd_timeout_message(None).ok().unwrap().is_none());
    assert_eq!(parse_sd_timeout_message(Some("{}{}".to_owned())).err(), Some("more than one `{}` in format string"));
    let f = parse_sd_timeout_message(Some("left: {}s".to_owned())).ok().unwrap().unwrap();
    assert_eq!(f.format("3"), "left: 3s");
}
