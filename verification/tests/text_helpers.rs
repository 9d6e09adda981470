use hearye::text::{chars_eq, chars_of, decimal_string, is_whitespace, starts_with, str_eq, string_of, trim_string};

#[test]
fn trim_removes_unicode_white_space_at_both_ends() {
    assert_eq!(trim_string("\u{3000} hi there \n"), "hi there");
    assert_eq!(trim_string("   "), "");
    assert_eq!(trim_string("x"), "x");
}

#[test]
fn trim_agrees_with_std() {
    for s in ["", " a ", "\t\u{85}b\u{A0}", "a b", "\u{202F}"] {
        assert_eq!(trim_string(s), s.trim());
    }
}

#[test]
fn whitespace_agrees_with_std() {
    for u in 0u32..0x3100 {
        if let Some(c) = char::from_u32(u) {
            assert_eq!(is_whitespace(c), c.is_whitespace(), "{u:#x}");
        }
    }
}

#[test]
fn decimal_matches_format() {
    for n in [0u64, 7, 10, 99, 100, 12345, u64::MAX] {
        assert_eq!(decimal_string(n), format!("{n}"));
    }
}

#[test]
fn string_comparisons() {
    assert!(str_eq("abc", "abc"));
    assert!(!str_eq("abc", "abd"));
    assert!(!str_eq("ab", "abc"));
    assert!(starts_with("mic:USB", "mic:"));
    assert!(!starts_with("mi", "mic:"));
    assert!(chars_eq(&chars_of("é"), &vec!['é']));
    assert_eq!(string_of(&vec!['a', 'é', 'z']), "aéz");
}
