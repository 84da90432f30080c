use hangar::text::{
    chars_of, char_is_whitespace, contains_chars, find_char, i64_to_decimal, line_ranges,
    matches_at, skip_leading_from, split_ranges, str_before, str_contains, str_starts_with,
    str_trimmed, trim_bounds, u64_to_decimal,
};

fn pieces(text: &str, sep: char) -> Vec<String> {
    let v = chars_of(text);
    split_ranges(&v, 0, v.len(), sep)
        .into_iter()
        .map(|(a, b)| v[a..b].iter().collect::<String>())
        .collect()
}

fn lines_of(text: &str) -> Vec<String> {
    let v = chars_of(text);
    line_ranges(&v).into_iter().map(|(a, b)| v[a..b].iter().collect::<String>()).collect()
}

#[test]
fn decimal_of_small_numbers() {
    assert_eq!(u64_to_decimal(0), "0");
    assert_eq!(u64_to_decimal(7), "7");
    assert_eq!(u64_to_decimal(10), "10");
    assert_eq!(u64_to_decimal(3725), "3725");
}

#[test]
fn decimal_agrees_with_the_standard_formatter() {
    for n in [0u64, 1, 9, 10, 99, 100, 101, 65535, 1_000_000_007, u64::MAX] {
        assert_eq!(u64_to_decimal(n), n.to_string());
    }
    for n in [0i64, -1, 1, -9, -10, 42, -42, i64::MAX, i64::MIN, i64::MIN + 1] {
        assert_eq!(i64_to_decimal(n), n.to_string());
    }
}

#[test]
fn chars_of_keeps_every_character() {
    assert_eq!(chars_of(""), Vec::<char>::new());
    assert_eq!(chars_of("aé日"), vec!['a', 'é', '日']);
}

#[test]
fn find_char_gives_first_match_or_end() {
    let v = chars_of("a.b.c");
    assert_eq!(find_char(&v, 0, v.len(), '.'), 1);
    assert_eq!(find_char(&v, 2, v.len(), '.'), 3);
    assert_eq!(find_char(&v, 4, v.len(), '.'), 5);
    assert_eq!(find_char(&v, 0, 1, '.'), 1);
}

#[test]
fn matching_and_containment() {
    let v = chars_of("hello world");
    assert!(matches_at(&v, 0, &chars_of("hello")));
    assert!(matches_at(&v, 6, &chars_of("world")));
    assert!(!matches_at(&v, 7, &chars_of("world")));
    assert!(matches_at(&v, 11, &chars_of("")));
    assert!(!matches_at(&v, 12, &chars_of("")));
    assert!(contains_chars(&v, &chars_of("lo wo")));
    assert!(contains_chars(&v, &chars_of("")));
    assert!(!contains_chars(&v, &chars_of("worlds")));
    assert!(str_starts_with("français", "fr"));
    assert!(!str_starts_with("f", "fr"));
    assert!(str_contains("abc", "bc"));
    assert!(!str_contains("abc", "cb"));
}

#[test]
fn containment_agrees_with_the_standard_library() {
    let texts = ["", "a", "ab", "aab", "abab", "Key 'x' not found for language 'en'"];
    for hay in texts {
        for needle in texts {
            assert_eq!(str_contains(hay, needle), hay.contains(needle), "{hay:?} {needle:?}");
            assert_eq!(str_starts_with(hay, needle), hay.starts_with(needle));
        }
    }
}

#[test]
fn whitespace_agrees_with_the_standard_library() {
    for code in 0u32..0x11000 {
        if let Some(c) = char::from_u32(code) {
            assert_eq!(char_is_whitespace(c), c.is_whitespace(), "U+{code:04X}");
        }
    }
}

#[test]
fn trimming_agrees_with_the_standard_library() {
    for text in ["", " ", "a", " a", "a ", "  a b  ", "\t\r\n x\u{a0}", "\u{3000}日本\u{2003}"] {
        assert_eq!(str_trimmed(text), text.trim());
        let v = chars_of(text);
        let (a, b) = trim_bounds(&v, 0, v.len());
        assert_eq!(v[a..b].iter().collect::<String>(), text.trim());
    }
}

#[test]
fn leading_run_is_skipped() {
    let v = chars_of("??a?b");
    assert_eq!(skip_leading_from(&v, 0, v.len(), '?'), 2);
    assert_eq!(skip_leading_from(&v, 2, v.len(), '?'), 2);
    let w = chars_of("???");
    assert_eq!(skip_leading_from(&w, 0, w.len(), '?'), 3);
}

#[test]
fn splitting_agrees_with_the_standard_library() {
    for text in ["", "a", ",", "a,b", "a,,b", ",a,", "alice, bob ,carol"] {
        let expected: Vec<String> = text.split(',').map(|s| s.to_string()).collect();
        assert_eq!(pieces(text, ','), expected, "{text:?}");
    }
}

#[test]
fn lines_agree_with_the_standard_library() {
    for text in ["", "a", "a\n", "a\nb", "a\r\nb\r\n", "\n", "\n\n", "a\r", "a\r\n\r\nb", "\r\n", "x\n\ry"]
    {
        let expected: Vec<String> = text.lines().map(|s| s.to_string()).collect();
        assert_eq!(lines_of(text), expected, "{text:?}");
    }
}

#[test]
fn before_stops_at_the_first_occurrence() {
    assert_eq!(str_before("2024-05-01T10:00:00Z", 'T'), "2024-05-01");
    assert_eq!(str_before("no separator", 'T'), "no separator");
    assert_eq!(str_before("T", 'T'), "");
    assert_eq!(str_before("", 'T'), "");
}
