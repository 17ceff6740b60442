use teams_auth::text::{contains, join, same, split_at_char, split_words, starts_with, strip_prefix, trim};

/// Every text that a single character makes, between two letters and alone.
fn every_char() -> Vec<char> {
    (0..=0x10ffff_u32).filter_map(char::from_u32).collect()
}

#[test]
fn trimming_and_splitting_agree_with_the_standard_library_on_every_character() {
    for c in every_char() {
        let alone = c.to_string();
        assert_eq!(trim(&alone), alone.trim(), "{:?}", c);
        let between = format!("a{}b", c);
        assert_eq!(
            split_words(&between),
            between.split_whitespace().collect::<Vec<_>>(),
            "{:?}",
            c
        );
    }
}

#[test]
fn white_space_is_the_unicode_property() {
    let listed = [
        0x9, 0xa, 0xb, 0xc, 0xd, 0x20, 0x85, 0xa0, 0x1680, 0x2000, 0x2001, 0x2002, 0x2003, 0x2004,
        0x2005, 0x2006, 0x2007, 0x2008, 0x2009, 0x200a, 0x2028, 0x2029, 0x202f, 0x205f, 0x3000_u32,
    ];
    for c in every_char() {
        let blank = trim(&c.to_string()).is_empty();
        assert_eq!(blank, listed.contains(&(c as u32)), "{:?}", c);
    }
}

#[test]
fn trim_takes_white_space_off_both_ends_only() {
    assert_eq!(trim("\t\u{a0} a b \r\n"), "a b");
    assert_eq!(trim("a"), "a");
    assert_eq!(trim(" \u{2003} "), "");
    assert_eq!(trim(""), "");
}

#[test]
fn words_are_the_stretches_between_white_space() {
    assert_eq!(split_words("  one\ttwo\u{3000}three\n"), vec!["one", "two", "three"]);
    assert_eq!(split_words("é"), vec!["é"]);
    assert!(split_words(" \n ").is_empty());
    assert!(split_words("").is_empty());
}

#[test]
fn join_and_split_words_undo_each_other() {
    let parts = vec!["a".to_string(), "bc".to_string(), "d".to_string()];
    let text = join(&parts, " ");
    assert_eq!(text, "a bc d");
    assert_eq!(split_words(&text), vec!["a", "bc", "d"]);
    assert_eq!(join(&vec![], ", "), "");
    assert_eq!(join(&vec!["x".to_string()], ", "), "x");
}

#[test]
fn prefixes() {
    assert!(starts_with("https://x", "https://"));
    assert!(starts_with("abc", ""));
    assert!(!starts_with("http", "https://"));
    assert!(!starts_with("xhttps://", "https://"));
    assert_eq!(strip_prefix("Bearer tok", "Bearer "), Some("tok"));
    assert_eq!(strip_prefix("Bearer ", "Bearer "), Some(""));
    assert_eq!(strip_prefix("Bearer", "Bearer "), None);
    assert_eq!(strip_prefix("éa", "é"), Some("a"));
}

#[test]
fn contains_agrees_with_the_standard_library() {
    for s in ["", "a", "aab", "aabaab", "ñaab", "AADSTS65001"] {
        for pat in ["", "a", "ab", "aab", "b", "aba", "ñ", "650011", "AADSTS65001"] {
            assert_eq!(contains(s, pat), s.contains(pat), "{:?} in {:?}", pat, s);
        }
    }
}

#[test]
fn same_compares_characters() {
    assert!(same("-", "-"));
    assert!(!same("-", "--"));
    assert!(!same("", "-"));
}

#[test]
fn cutting_at_a_character_agrees_with_the_standard_library() {
    for s in ["", ".", "a", "a.b", "a..b", ".a.", "header.payload.sig", "é.ü.ß"] {
        assert_eq!(split_at_char(s, '.'), s.split('.').collect::<Vec<_>>(), "{:?}", s);
    }
}
