use companion_updater::json::same_text;
use companion_updater::text::{chars_of, decimal_string, occurs, starts_with_chars, white_space};

#[test]
fn decimal_strings() {
    assert_eq!(decimal_string(0), "0");
    assert_eq!(decimal_string(7), "7");
    assert_eq!(decimal_string(10), "10");
    assert_eq!(decimal_string(250), "250");
    assert_eq!(decimal_string(u64::MAX), u64::MAX.to_string());
}

#[test]
fn whitespace_matches_std() {
    for c in ['\t', '\n', ' ', '\u{85}', '\u{a0}', '\u{2009}', '\u{3000}', 'a', '0', '\u{200b}', '\u{feff}'] {
        assert_eq!(white_space(c), c.is_whitespace(), "{c:?}");
    }
}

#[test]
fn prefix_and_occurrence() {
    let s = chars_of("linux-arm64");
    assert!(starts_with_chars(&s, &chars_of("linux-")));
    assert!(!starts_with_chars(&s, &chars_of("linux-arm64-tgz")));
    assert!(occurs(&chars_of("arm"), &s));
    assert!(occurs(&chars_of(""), &s));
    assert!(!occurs(&chars_of("x86"), &s));
    assert!(same_text("é", "é"));
    assert!(!same_text("a", "ab"));
}
