use exp_box::text::{concat3, contains, is_whitespace, str_eq, strip_prefix, trim, trim_end_char, trim_start_char};

#[test]
fn trim_removes_unicode_whitespace_on_both_sides() {
    assert_eq!(trim("  \t hello world \n"), "hello world");
    assert_eq!(trim("\u{3000}x\u{00A0}"), "x");
    assert_eq!(trim("   "), "");
    assert_eq!(trim(""), "");
    assert_eq!(trim("a b"), "a b");
}

#[test]
fn trim_agrees_with_std_trim() {
    for s in ["", " ", "x", " x ", "\u{2003}y\u{2029}", "a\u{200B}", "\u{85}z\u{1680}"] {
        assert_eq!(trim(s), s.trim());
    }
}

#[test]
fn is_whitespace_agrees_with_char_is_whitespace() {
    for u in 0u32..0x3100 {
        if let Some(c) = char::from_u32(u) {
            assert_eq!(is_whitespace(c), c.is_whitespace(), "code point {u:#x}");
        }
    }
}

#[test]
fn trim_is_idempotent_on_examples() {
    for s in ["  a  ", "\tb", "c\n", "  "] {
        assert_eq!(trim(trim(s)), trim(s));
    }
}

#[test]
fn slash_trimming_matches_std() {
    assert_eq!(trim_start_char("//exec", '/'), "exec");
    assert_eq!(trim_end_char("http://room:9000//", '/'), "http://room:9000");
    assert_eq!(trim_start_char("exec", '/'), "exec");
    assert_eq!(trim_end_char("///", '/'), "");
}

#[test]
fn strip_prefix_matches_std() {
    assert_eq!(strip_prefix("lab_session=abc", "lab_session="), Some("abc"));
    assert_eq!(strip_prefix("lab_session", "lab_session="), None);
    assert_eq!(strip_prefix("x", ""), Some("x"));
    assert_eq!(strip_prefix("other=1", "lab_session="), None);
}

#[test]
fn contains_finds_substrings() {
    assert!(contains("UNIQUE constraint failed: users.username", "UNIQUE"));
    assert!(!contains("unique constraint", "UNIQUE"));
    assert!(contains("abc", ""));
    assert!(!contains("ab", "abc"));
    assert!(contains("xxabcxx", "abc"));
}

#[test]
fn str_eq_and_concat() {
    assert!(str_eq("rce", "rce"));
    assert!(!str_eq("rce", "xss"));
    assert!(!str_eq("rce", "rc"));
    assert_eq!(concat3("a", "/", "b"), "a/b");
}
