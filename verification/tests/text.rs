use spot_scraper::text::{
    first_of_split, is_space, join, last_of_split, nth_of_split, parse_u64, parse_u8, replace,
    same_text, split, starts_with, trim,
};

#[test]
fn trim_drops_surrounding_white_space() {
    assert_eq!(trim("  a b\n"), "a b");
    assert_eq!(trim(""), "");
    assert_eq!(trim(" \t "), "");
}

#[test]
fn split_at_slashes() {
    assert_eq!(split("/mhs/topik/12/34", "/"), vec!["", "mhs", "topik", "12", "34"]);
    assert_eq!(split("", "/"), vec![""]);
    assert_eq!(split("a/", "/"), vec!["a", ""]);
}

#[test]
fn join_puts_separator_between() {
    let parts = vec!["a".to_string(), "b".to_string(), "c".to_string()];
    assert_eq!(join(&parts, " "), "a b c");
    assert_eq!(join(&Vec::new(), " "), "");
}

#[test]
fn replace_all_occurrences() {
    assert_eq!(replace("Judul: x: y", ": ", ""), "Judulxy");
    assert_eq!(replace("aaa", "aa", "b"), "ba");
}

#[test]
fn parse_numbers() {
    assert_eq!(parse_u64("4821"), Some(4821));
    assert_eq!(parse_u64("+7"), Some(7));
    assert_eq!(parse_u64(""), None);
    assert_eq!(parse_u64("+"), None);
    assert_eq!(parse_u64("12a"), None);
    assert_eq!(parse_u64("18446744073709551615"), Some(u64::MAX));
    assert_eq!(parse_u64("18446744073709551616"), None);
    assert_eq!(parse_u8("255"), Some(255));
    assert_eq!(parse_u8("256"), None);
}

#[test]
fn white_space_is_what_std_calls_white_space() {
    for code in 0..=0x10FFFFu32 {
        if let Some(c) = char::from_u32(code) {
            assert_eq!(is_space(c), c.is_whitespace(), "U+{:04X}", code);
        }
    }
}

#[test]
fn trim_agrees_with_std() {
    for s in ["", " ", "a", " a", "a ", "\u{a0}a\u{3000}", "\t\r\n a b \u{2003}", "\u{85}x\u{1680}"] {
        assert_eq!(trim(s), s.trim());
    }
}

#[test]
fn split_agrees_with_std() {
    let cases = [
        ("", "/"),
        ("/", "/"),
        ("//", "/"),
        ("a/b/c", "/"),
        ("aaa", "aa"),
        ("aaaa", "aa"),
        ("abcabc", "bc"),
        ("x: y: z", ": "),
        ("https://www.youtube.com/embed/abc?x", "embed/"),
        ("short", "much longer"),
        ("éa/üb", "/"),
    ];
    for (s, pat) in cases {
        let expected: Vec<String> = s.split(pat).map(|p| p.to_string()).collect();
        assert_eq!(split(s, pat), expected, "{:?} at {:?}", s, pat);
        assert_eq!(replace(s, pat, "+"), s.replace(pat, "+"), "{:?} at {:?}", s, pat);
    }
}

#[test]
fn split_at_empty_pattern_keeps_the_text_whole() {
    assert_eq!(split("abc", ""), vec!["abc"]);
    assert_eq!(replace("abc", "", "x"), "abc");
}

#[test]
fn numbers_agree_with_std() {
    for s in ["0", "007", "+0", "+", "-", "-1", "1 ", " 1", "1_0", "٣", "255", "256", "99999999999999999999999", "+18446744073709551615"] {
        assert_eq!(parse_u64(s), s.parse::<u64>().ok(), "{:?}", s);
        assert_eq!(parse_u8(s), s.parse::<u8>().ok(), "{:?}", s);
    }
}

#[test]
fn pieces_by_position() {
    assert_eq!(last_of_split("a/b/c", "/"), "c");
    assert_eq!(last_of_split("abc", "/"), "abc");
    assert_eq!(first_of_split("a?b?c", "?"), "a");
    assert_eq!(first_of_split("abc", "?"), "abc");
    assert_eq!(nth_of_split("a/b/c", "/", 1).as_deref(), Some("b"));
    assert_eq!(nth_of_split("a/b/c", "/", 3), None);
    assert!(same_text("Judul", "Judul"));
    assert!(!same_text("Judul", "judul"));
    assert!(!same_text("Judul", "Judul "));
    assert!(starts_with("https://x", "https://"));
    assert!(!starts_with("http", "https://"));
    assert!(starts_with("abc", ""));
}
