use meeting_assistant::recording::title_in;
use meeting_assistant::text::{
    contains_text, joined, prefix_within, same_ignoring_ascii_case, same_text, suffix_within,
};

fn listed(c: char) -> bool {
    ('\u{9}'..='\u{d}').contains(&c)
        || ('\u{2000}'..='\u{200a}').contains(&c)
        || [
            ' ', '\u{85}', '\u{a0}', '\u{1680}', '\u{2028}', '\u{2029}', '\u{202f}', '\u{205f}',
            '\u{3000}',
        ]
        .contains(&c)
}

#[test]
fn white_space_of_every_character() {
    for c in '\0'..=char::MAX {
        let blank = title_in(&c.to_string()).is_none();
        assert_eq!(blank, listed(c), "{:?}", c);
    }
}

#[test]
fn longest_beginnings() {
    assert_eq!(prefix_within("a\u{e4}b", 0), "");
    assert_eq!(prefix_within("a\u{e4}b", 1), "a");
    assert_eq!(prefix_within("a\u{e4}b", 2), "a");
    assert_eq!(prefix_within("a\u{e4}b", 3), "a\u{e4}");
    assert_eq!(prefix_within("a\u{e4}b", 4), "a\u{e4}b");
    assert_eq!(prefix_within("a\u{e4}b", usize::MAX), "a\u{e4}b");
}

#[test]
fn longest_ends() {
    assert_eq!(suffix_within("a\u{e4}b", 0), "");
    assert_eq!(suffix_within("a\u{e4}b", 1), "b");
    assert_eq!(suffix_within("a\u{e4}b", 2), "b");
    assert_eq!(suffix_within("a\u{e4}b", 3), "\u{e4}b");
    assert_eq!(suffix_within("a\u{e4}b", 9), "a\u{e4}b");
    assert_eq!(suffix_within("", 9), "");
}

#[test]
fn texts_side_by_side() {
    assert_eq!(joined("ab", "c"), "abc");
    assert!(same_text("user", "user"));
    assert!(!same_text("user", "User"));
    assert!(!same_text("user", "users"));
    assert!(same_text("", ""));
}

#[test]
fn substrings() {
    for (hay, needle) in [
        ("", ""), ("", "a"), ("abc", ""), ("abc", "abc"), ("abc", "bc"), ("abc", "ab"),
        ("abc", "ac"), ("abc", "abcd"), ("aab", "ab"), ("ababac", "abac"),
        ("a\u{e4}\u{1f600}b", "\u{1f600}b"), ("a\u{e4}", "\u{e5}"),
    ] {
        assert_eq!(contains_text(hay, needle), hay.contains(needle), "{} {}", hay, needle);
    }
}

#[test]
fn ascii_case_is_ignored() {
    for (a, b) in [
        ("", ""), ("Calendar", "cALENDAR"), ("Calendar", "Calendars"), ("[a]", "{A}"),
        ("@Z`", "`z@"), ("\u{c4}", "\u{e4}"), ("\u{c4}X", "\u{c4}x"), ("K", "\u{212a}"),
    ] {
        assert_eq!(same_ignoring_ascii_case(a, b), a.eq_ignore_ascii_case(b), "{} {}", a, b);
    }
}
