use nomnom::text::{
    contains_str, is_blank_str, is_white_space_char, split_words, starts_with_str, str_equal,
    trim_end_slashes,
};

#[test]
fn trimming_trailing_slashes() {
    assert_eq!(trim_end_slashes("/a/b///"), "/a/b");
    assert_eq!(trim_end_slashes("///"), "");
    assert_eq!(trim_end_slashes("a/b"), "a/b");
    assert_eq!(trim_end_slashes(""), "");
    assert_eq!(trim_end_slashes("é/"), "é");
}

#[test]
fn white_space_matches_std() {
    for c in ['\t', '\n', '\u{b}', '\u{c}', '\r', ' ', '\u{85}', '\u{a0}', '\u{1680}', '\u{2000}',
              '\u{200a}', '\u{2028}', '\u{2029}', '\u{202f}', '\u{205f}', '\u{3000}', 'a', '\u{200b}',
              '\u{feff}', '\u{180e}', '0', 'é'] {
        assert_eq!(is_white_space_char(c), c.is_whitespace(), "{:?}", c);
    }
}

#[test]
fn blank_strings() {
    assert!(is_blank_str(""));
    assert!(is_blank_str(" \t\r\n"));
    assert!(!is_blank_str(" x "));
}

#[test]
fn splitting_into_words() {
    assert_eq!(split_words("--audio-format mp3"), vec!["--audio-format", "mp3"]);
    assert_eq!(split_words("  a\t\tb \u{3000}c  "), vec!["a", "b", "c"]);
    assert!(split_words("").is_empty());
    assert!(split_words(" \n ").is_empty());
    assert_eq!(split_words("one"), vec!["one"]);
}

#[test]
fn words_match_std_split_whitespace() {
    for s in ["a  b", " x\u{85}y ", "--proxy socks5://127.0.0.1:1080", "ü ö\u{a0}ä"] {
        let expected: Vec<&str> = s.split_whitespace().collect();
        assert_eq!(split_words(s), expected);
    }
}

#[test]
fn comparisons() {
    assert!(str_equal("abc", "abc"));
    assert!(!str_equal("abc", "abd"));
    assert!(!str_equal("ab", "abc"));
    assert!(starts_with_str("✔ ok", "✔"));
    assert!(!starts_with_str("ok", "✔"));
    assert!(starts_with_str("x", ""));
    assert!(contains_str("a [info] b", "[info]"));
    assert!(contains_str("[info]", "[info]"));
    assert!(!contains_str("[inf", "[info]"));
    assert!(contains_str("", ""));
}
