use cftun::text::{
    cat2, cat3, cat5, chars_of, comes_before, contains_char, contains_chars, decimal_text,
    is_whitespace, join_spaced, last_word_bounds, parse_port, starts_with, trim,
};

const SAMPLES: [&str; 14] = [
    "",
    " ",
    "a",
    " a ",
    "\t\r\n a b \u{3000}",
    "\u{a0}é\u{85}",
    "with id",
    "no break\u{200b}",
    "line\nline",
    "ab",
    "abc",
    "b",
    "\u{1F600} smile",
    "\u{fffd}\u{feff} x",
];

#[test]
fn white_space_is_that_of_unicode() {
    for code in 0..=0x10ffffu32 {
        if let Some(c) = char::from_u32(code) {
            assert_eq!(is_whitespace(c), c.is_whitespace(), "{code:x}");
        }
    }
}

#[test]
fn trim_takes_white_space_off_both_ends() {
    for s in SAMPLES {
        assert_eq!(trim(s), s.trim());
    }
}

#[test]
fn chars_come_in_order() {
    for s in SAMPLES {
        assert_eq!(chars_of(s), s.chars().collect::<Vec<char>>());
    }
}

#[test]
fn prefixes_and_parts_are_found() {
    for s in SAMPLES {
        for p in SAMPLES {
            assert_eq!(starts_with(s, p), s.starts_with(p));
            assert_eq!(contains_chars(&chars_of(s), &chars_of(p)), s.contains(p));
        }
        for c in ['a', ' ', '.', 'é'] {
            assert_eq!(contains_char(s, c), s.contains(c));
        }
    }
}

#[test]
fn last_word_is_found() {
    for s in SAMPLES {
        let v = chars_of(s);
        let found = last_word_bounds(&v, 0, v.len())
            .map(|(from, to)| v[from..to].iter().collect::<String>());
        assert_eq!(found, s.split_whitespace().last().map(String::from));
    }
}

#[test]
fn ports_are_read() {
    for s in [
        "", "0", "7", "80", "65535", "65536", "99999", "100000000000000000000", "+1", "+", "++1",
        "-0", "-1", " 80", "80 ", "8_0", "0x50", "00080", "000000000000000000080", "٣", "80a", "a",
    ] {
        assert_eq!(parse_port(s), s.parse::<u16>().ok(), "{s}");
    }
}

#[test]
fn numbers_are_written() {
    for n in [0, 1, 9, 10, 11, 99, 100, 101, 65535, 1234567890, usize::MAX] {
        assert_eq!(decimal_text(n), n.to_string());
    }
}

#[test]
fn written_ports_are_read_back() {
    for n in 0..=u16::MAX {
        assert_eq!(parse_port(&decimal_text(n as usize)), Some(n));
    }
}

#[test]
fn texts_have_an_order() {
    for a in SAMPLES {
        for b in SAMPLES {
            assert_eq!(comes_before(a, b), a < b, "{a:?} {b:?}");
        }
    }
}

#[test]
fn parts_are_joined() {
    for n in 0..4 {
        let parts: Vec<String> = (0..n).map(|i| format!("p{i}")).collect();
        assert_eq!(join_spaced(&parts), parts.join(" "));
    }
    assert_eq!(cat2("a", "b"), "ab");
    assert_eq!(cat3("a", "", "c"), "ac");
    assert_eq!(cat5("a", "b", "c", "d", "é"), "abcdé");
}
