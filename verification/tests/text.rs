use series_tracker::text::{blank, chars_of, equals_ignoring_case, fold, join, whitespace};

#[test]
fn whitespace_is_what_std_takes_for_whitespace() {
    let mut n: u32 = 0;
    while n <= 0x10FFFF {
        if let Some(c) = char::from_u32(n) {
            assert_eq!(whitespace(c), c.is_whitespace(), "U+{:04X}", n);
        }
        n += 1;
    }
}

#[test]
fn blank_is_what_trims_to_nothing() {
    for s in ["", " ", "   ", "\t\r\n", "\u{85}\u{a0}\u{1680}\u{2028}\u{2029}\u{202f}\u{205f}\u{3000}"] {
        assert!(blank(s), "{:?}", s);
        assert!(s.trim().is_empty());
    }
    for s in ["a", " a", "a ", "  . ", "\u{200b}", "\u{180e}", "\u{feff}", "\0"] {
        assert!(!blank(s), "{:?}", s);
        assert!(!s.trim().is_empty());
    }
}

#[test]
fn fold_maps_ascii_capitals_only() {
    assert_eq!(fold('A'), 'a' as u32);
    assert_eq!(fold('Z'), 'z' as u32);
    assert_eq!(fold('a'), 'a' as u32);
    assert_eq!(fold('@'), '@' as u32);
    assert_eq!(fold('['), '[' as u32);
    assert_eq!(fold('\u{c9}'), 0xc9);
    let mut n: u32 = 0;
    while n <= 0x10FFFF {
        if let Some(c) = char::from_u32(n) {
            assert_eq!(fold(c), c.to_ascii_lowercase() as u32, "U+{:04X}", n);
        }
        n += 1;
    }
}

#[test]
fn no_other_character_lowers_to_a_letter_of_the_sort_words() {
    let letters = ['a', 's', 'c', 'd', 'e'];
    let mut n: u32 = 0;
    while n <= 0x10FFFF {
        if let Some(c) = char::from_u32(n) {
            let lowered: Vec<char> = c.to_lowercase().collect();
            if lowered.iter().any(|l| letters.contains(l)) {
                assert!(c.is_ascii(), "U+{:04X}", n);
                assert_eq!(lowered.len(), 1);
                assert_eq!(lowered[0] as u32, fold(c));
            }
        }
        n += 1;
    }
}

#[test]
fn equals_ignoring_case_agrees_with_lowercasing() {
    let samples = [
        "", "a", "asc", "ASC", "aSc", "desc", "DESC", "Desc", "dESC", "asc ", " asc", "as", "ascc",
        "des", "descc", "INVALID", "a\u{17f}c", "de\u{17f}c", "\u{212a}", "\u{c5}sc", "\u{105}sc", "\u{ff41}\u{ff53}\u{ff43}",
        "A\u{3a3}C", "d\u{130}sc",
    ];
    for s in samples {
        for word in ["asc", "desc"] {
            assert_eq!(equals_ignoring_case(s, word), s.to_lowercase() == word, "{:?}", s);
            assert_eq!(equals_ignoring_case(s, word), s.eq_ignore_ascii_case(word), "{:?}", s);
        }
    }
    assert!(equals_ignoring_case("Hello", "hELLO"));
    assert!(!equals_ignoring_case("Hello", "Hell"));
    assert!(!equals_ignoring_case("\u{e9}", "\u{c9}"));
}

#[test]
fn chars_of_lists_every_character() {
    assert_eq!(chars_of(""), Vec::<char>::new());
    assert_eq!(chars_of("a\u{f1}\u{20ac}\u{1f600}"), vec!['a', '\u{f1}', '\u{20ac}', '\u{1f600}']);
}

#[test]
fn join_puts_the_separator_between_neighbours() {
    assert_eq!(join(&vec![], " AND "), "");
    assert_eq!(join(&vec!["a"], " AND "), "a");
    assert_eq!(join(&vec!["a", "b"], " AND "), "a AND b");
    assert_eq!(join(&vec!["a", "b", "c"], ", "), "a, b, c");
    assert_eq!(join(&vec!["", ""], "-"), "-");
    let parts = vec!["title LIKE ?", "status = ?"];
    assert_eq!(join(&parts, " AND "), parts.join(" AND "));
}
