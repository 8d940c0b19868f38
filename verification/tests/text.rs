use penta_top_hat::env_map::stands_before;
use penta_top_hat::number::{parse_unsigned, to_decimal, to_hex};
use penta_top_hat::text::{
    find_char, is_whitespace, lines, same_text, split_once, strip_prefix, to_ascii_lowercase, trim,
};

const SAMPLES: [&str; 16] = [
    "",
    " ",
    "a",
    " a ",
    "\t\u{a0}a b\u{3000}\n",
    "\u{200b}a\u{200b}",
    "KEY=value",
    "==",
    "a\nb",
    "a\r\nb\r\n",
    "\n\n",
    "a\r",
    "\r\n\r\r\nx",
    "\u{c9}T\u{c9}=Zz",
    "\u{1f980} crab\n",
    "ABCxyz[]@`{",
];

#[test]
fn white_space_is_the_unicode_property() {
    for c in '\0'..=char::MAX {
        assert_eq!(is_whitespace(c), c.is_whitespace(), "{:?}", c);
    }
}

#[test]
fn texts_are_trimmed_lowered_and_split_as_usual() {
    for s in SAMPLES {
        assert_eq!(trim(s), s.trim());
        assert_eq!(to_ascii_lowercase(s), s.to_ascii_lowercase());
        assert_eq!(split_once(s, '='), s.split_once('='));
        assert_eq!(lines(s), s.lines().map(str::to_string).collect::<Vec<_>>());
        assert_eq!(
            find_char(s, '\n'),
            s.chars().position(|c| c == '\n').unwrap_or(s.chars().count())
        );
        for t in SAMPLES {
            assert_eq!(same_text(s, t), s == t);
            assert_eq!(strip_prefix(s, t), s.strip_prefix(t));
            assert_eq!(stands_before(s, t), s < t);
        }
    }
}

#[test]
fn numbers_are_read_as_usual() {
    for s in [
        "", "+", "-", "0", "+0", "-0", "00017", "+255", "256", "4294967295", "4294967296",
        "18446744073709551615", "18446744073709551616", "99999999999999999999999999", "1 ", " 1",
        "1_000", "0x10", "++1", "\u{661}", "1.0",
    ] {
        assert_eq!(parse_unsigned(s, u64::MAX), s.parse::<u64>().ok());
        assert_eq!(
            parse_unsigned(s, u32::MAX as u64),
            s.parse::<u32>().ok().map(u64::from)
        );
        assert_eq!(
            parse_unsigned(s, 255),
            s.parse::<u8>().ok().map(u64::from)
        );
    }
    assert_eq!(parse_unsigned("7", 3), None);
}

#[test]
fn numbers_are_written_as_usual_and_read_back() {
    for n in [0u64, 1, 9, 10, 15, 16, 255, 65_535, 1_000_000, u64::MAX] {
        assert_eq!(to_decimal(n), format!("{n}"));
        assert_eq!(to_hex(n), format!("{n:x}"));
        assert_eq!(parse_unsigned(&to_decimal(n), u64::MAX), Some(n));
    }
}
