use vibebar::text::{
    append_blanks, append_decimal, append_left_aligned, append_right_aligned, append_signed,
    chars_of, contains, find, join, lines, parse_i32, parse_u32, parse_u64, same_text, space,
    split_whitespace, trim,
};

const SAMPLES: [&str; 24] = [
    "",
    " ",
    "a",
    "  a  ",
    "\t\n a b \r\n",
    "a\u{a0}b",
    "\u{a0}\u{2003}x\u{3000}",
    "\u{85}y\u{1680}",
    "\u{2028}line\u{2029}",
    "\u{202f}z\u{205f}",
    "\u{200b}zero-width\u{200b}",
    "\u{feff}bom",
    "one two  three\tfour\nfive",
    "a\nb",
    "a\n",
    "\n",
    "\n\n",
    "a\r\nb\r\n",
    "a\r",
    "a\r\r\n",
    "\r\n",
    "a\n\nb",
    "\u{e9}t\u{e9} \u{1f600} emoji",
    "x\ry\nz",
];

#[test]
fn trim_agrees_with_std() {
    for s in SAMPLES {
        assert_eq!(trim(s), s.trim(), "{s:?}");
    }
}

#[test]
fn split_whitespace_agrees_with_std() {
    for s in SAMPLES {
        let expected: Vec<&str> = s.split_whitespace().collect();
        assert_eq!(split_whitespace(s), expected, "{s:?}");
    }
}

#[test]
fn lines_agree_with_std() {
    for s in SAMPLES {
        let expected: Vec<&str> = s.lines().collect();
        assert_eq!(lines(s), expected, "{s:?}");
    }
}

#[test]
fn white_space_agrees_with_std_for_every_character() {
    for u in 0..=0x10ffff_u32 {
        if let Some(c) = char::from_u32(u) {
            assert_eq!(space(c), c.is_whitespace(), "U+{u:04X}");
        }
    }
}

#[test]
fn chars_of_lists_every_character() {
    assert_eq!(chars_of(""), Vec::<char>::new());
    assert_eq!(chars_of("a\u{e9}\u{1f600}"), vec!['a', '\u{e9}', '\u{1f600}']);
}

#[test]
fn same_text_compares_content() {
    assert!(same_text("", ""));
    assert!(same_text("abc", "abc"));
    assert!(same_text("\u{e9}", "\u{e9}"));
    assert!(!same_text("abc", "abd"));
    assert!(!same_text("abc", "ab"));
    assert!(!same_text("", "a"));
    assert!(!same_text("e\u{301}", "\u{e9}"));
}

const NUMBERS: [&str; 34] = [
    "",
    "0",
    "7",
    "007",
    "+7",
    "-7",
    "+",
    "-",
    "+-7",
    "--7",
    "++7",
    " 7",
    "7 ",
    "7a",
    "a7",
    "1_000",
    "0x10",
    "1.5",
    "-0",
    "+0",
    "2147483647",
    "2147483648",
    "-2147483648",
    "-2147483649",
    "4294967295",
    "4294967296",
    "18446744073709551615",
    "18446744073709551616",
    "99999999999999999999999999",
    "-99999999999999999999999999",
    "000000000000000000000000001",
    "\u{663}",
    "\u{ff11}",
    "1\u{a0}",
];

#[test]
fn parse_i32_agrees_with_std() {
    for s in NUMBERS {
        assert_eq!(parse_i32(s), s.parse::<i32>().ok(), "{s:?}");
    }
}

#[test]
fn parse_u32_agrees_with_std() {
    for s in NUMBERS {
        assert_eq!(parse_u32(s), s.parse::<u32>().ok(), "{s:?}");
    }
}

#[test]
fn parse_u64_agrees_with_std() {
    for s in NUMBERS {
        assert_eq!(parse_u64(s), s.parse::<u64>().ok(), "{s:?}");
    }
}

#[test]
fn parse_gives_exact_values() {
    assert_eq!(parse_i32("-2147483648"), Some(i32::MIN));
    assert_eq!(parse_i32("+12"), Some(12));
    assert_eq!(parse_u32("4294967295"), Some(u32::MAX));
    assert_eq!(parse_u64("18446744073709551615"), Some(u64::MAX));
    assert_eq!(parse_u64("1234"), Some(1234));
    assert_eq!(parse_u32("-1"), None);
}

#[test]
fn decimal_writing_agrees_with_std() {
    for n in [0_u64, 1, 9, 10, 11, 99, 100, 101, 1234567890, u64::MAX] {
        let mut out = String::from("x");
        append_decimal(&mut out, n);
        assert_eq!(out, format!("x{n}"));
    }
    for i in [0_i64, 1, -1, 9, -9, 10, -10, 123, -123, i64::MAX, i64::MIN, i32::MIN as i64] {
        let mut out = String::from("y");
        append_signed(&mut out, i);
        assert_eq!(out, format!("y{i}"));
    }
}

#[test]
fn fields_pad_by_characters() {
    for (text, width) in [("", 0), ("", 3), ("ab", 1), ("ab", 2), ("ab", 5), ("\u{e9}\u{e9}", 3)] {
        let mut right = String::from("[");
        append_right_aligned(&mut right, text, width);
        assert_eq!(right, format!("[{text:>width$}"));
        let mut left = String::from("[");
        append_left_aligned(&mut left, text, width);
        assert_eq!(left, format!("[{text:<width$}"));
    }
    let mut blanks = String::from("a");
    append_blanks(&mut blanks, 3);
    assert_eq!(blanks, "a   ");
}

#[test]
fn join_agrees_with_std() {
    let none: Vec<String> = Vec::new();
    assert_eq!(join(&none, ", "), none.join(", "));
    let one = vec!["a".to_string()];
    assert_eq!(join(&one, ", "), "a");
    let three = vec!["a".to_string(), "".to_string(), "c".to_string()];
    assert_eq!(join(&three, ", "), "a, , c");
    assert_eq!(join(&three, ""), three.join(""));
}

#[test]
fn find_counts_characters_not_bytes() {
    assert_eq!(find("abcabc", "bc"), Some(1));
    assert_eq!(find("abcabc", ""), Some(0));
    assert_eq!(find("", ""), Some(0));
    assert_eq!(find("abc", "abcd"), None);
    assert_eq!(find("abc", "x"), None);
    assert_eq!(find("\u{e9}\u{e9}x", "x"), Some(2));
    assert_eq!("\u{e9}\u{e9}x".find("x"), Some(4));
}

#[test]
fn contains_agrees_with_std() {
    let hays = ["", "a", "inet 10.0.0.1/8", "  inet6 ::1", "192.168.100.1", "aaab", "\u{e9}x"];
    let needles = ["", "a", "inet ", "192.168.10", "ab", "b", "x", "\u{e9}", "aaaa"];
    for hay in hays {
        for needle in needles {
            assert_eq!(contains(hay, needle), hay.contains(needle), "{hay:?} {needle:?}");
        }
    }
}
