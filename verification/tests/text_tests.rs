use open_donate::text::{
    contains, decimal, is_blank, prefix_before, replace, signed_decimal, starts_with, str_eq,
    to_chars, trim_start_char,
};

#[test]
fn decimals() {
    assert_eq!(decimal(0), "0");
    assert_eq!(decimal(7), "7");
    assert_eq!(decimal(1234567890), "1234567890");
    assert_eq!(decimal(u64::MAX), u64::MAX.to_string());
    assert_eq!(signed_decimal(-42), "-42");
    assert_eq!(signed_decimal(i64::MIN), i64::MIN.to_string());
    assert_eq!(signed_decimal(i64::MAX), i64::MAX.to_string());
}

#[test]
fn string_helpers() {
    assert!(str_eq("héllo", "héllo"));
    assert!(!str_eq("a", "ab"));
    assert!(starts_with("/en/x", "/en"));
    assert!(!starts_with("/e", "/en"));
    assert!(contains("abcSessionRevokedxyz", "SessionRevoked"));
    assert!(contains("abc", ""));
    assert!(!contains("Session Revoked", "SessionRevoked"));
    assert_eq!(replace("a\"b\"", "\"", "\\\""), "a\\\"b\\\"");
    assert_eq!(replace("aaa", "aa", "b"), "ba");
    assert_eq!(prefix_before("x@y", '@'), "x");
    assert_eq!(trim_start_char("///a/b", '/'), "a/b");
    assert_eq!(to_chars("né"), vec!['n', 'é']);
    assert!(is_blank(""));
    assert!(is_blank("\u{2028}\u{205f} "));
    assert!(!is_blank(" x "));
}
