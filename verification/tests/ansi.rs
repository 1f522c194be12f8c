use paws::ansi::{parse_sgr_segments, rtrim_visible_preserve_sgr, wrap_ansi_simple};

#[test]
fn fixture_rtrim_preserves_sgr() {
    let fixture = "\u{1b}[31mHello\u{1b}[0m   ";
    let actual = rtrim_visible_preserve_sgr(fixture);
    let expected = "\u{1b}[31mHello\u{1b}[0m";
    assert_eq!(actual, expected);
}

#[test]
fn fixture_wrap_preserves_ansi() {
    let red = "\u{1b}[31m";
    let reset = "\u{1b}[0m";
    let input = format!("{}abc{}def", red, reset);
    let actual = wrap_ansi_simple(&input, 3);
    let expected = format!("{}abc{}\ndef", red, reset);
    assert_eq!(actual, expected);
}

#[test]
fn segments_cover_the_text() {
    let chars: Vec<char> = "ab\u{1b}[1mcd\u{1b}[0m".chars().collect();
    let segs = parse_sgr_segments(&chars);
    let seen: Vec<(bool, usize, usize)> = segs.iter().map(|g| (g.is_sgr, g.start, g.end)).collect();
    assert_eq!(seen, vec![(false, 0, 2), (true, 2, 6), (false, 6, 8), (true, 8, 12)]);
    assert!(parse_sgr_segments(&Vec::new()).is_empty());
    let open: Vec<char> = "x\u{1b}[31".chars().collect();
    let whole: Vec<(bool, usize, usize)> =
        parse_sgr_segments(&open).iter().map(|g| (g.is_sgr, g.start, g.end)).collect();
    assert_eq!(whole, vec![(false, 0, 5)]);
}

#[test]
fn rtrim_cuts_blanks_before_a_trailing_sequence() {
    assert_eq!(rtrim_visible_preserve_sgr("abc  \t"), "abc");
    assert_eq!(rtrim_visible_preserve_sgr("a b "), "a b");
    assert_eq!(rtrim_visible_preserve_sgr("   "), "");
    assert_eq!(rtrim_visible_preserve_sgr(""), "");
    assert_eq!(rtrim_visible_preserve_sgr("\u{1b}[0m"), "\u{1b}[0m");
    assert_eq!(rtrim_visible_preserve_sgr("  \u{1b}[0m  "), "\u{1b}[0m");
    assert_eq!(rtrim_visible_preserve_sgr("a \u{1b}[1m \u{1b}[0m "), "a\u{1b}[1m\u{1b}[0m");
    assert_eq!(rtrim_visible_preserve_sgr("é \u{1b}[1mü\u{1b}[0m "), "é \u{1b}[1mü\u{1b}[0m");
    assert_eq!(rtrim_visible_preserve_sgr("a\n "), "a\n");
}

#[test]
fn wrap_counts_visible_characters_only() {
    assert_eq!(wrap_ansi_simple("abcdefg", 3), "abc\ndef\ng");
    assert_eq!(wrap_ansi_simple("abcdef", 3), "abc\ndef");
    assert_eq!(wrap_ansi_simple("ab\ncdefg", 3), "ab\ncde\nfg");
    assert_eq!(wrap_ansi_simple("ab\r\ncd", 2), "ab\r\ncd");
    assert_eq!(wrap_ansi_simple("abc", 0), "abc");
    assert_eq!(wrap_ansi_simple("", 4), "");
    assert_eq!(wrap_ansi_simple("ééé", 2), "éé\né");
    assert_eq!(wrap_ansi_simple("\u{1b}[1mab\u{1b}[0mc", 2), "\u{1b}[1mab\u{1b}[0m\nc");
}
