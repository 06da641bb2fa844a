use openai_req::text::{joined, decimal_text, is_percent_safe, same_text, signed_decimal_text};

#[test]
fn decimal_text_writes_numerals() {
    assert_eq!(decimal_text(0), "0");
    assert_eq!(decimal_text(7), "7");
    assert_eq!(decimal_text(10), "10");
    assert_eq!(decimal_text(1024), "1024");
    assert_eq!(decimal_text(u64::MAX), "18446744073709551615");
}

#[test]
fn signed_decimal_text_writes_the_sign() {
    assert_eq!(signed_decimal_text(0), "0");
    assert_eq!(signed_decimal_text(42), "42");
    assert_eq!(signed_decimal_text(-1), "-1");
    assert_eq!(signed_decimal_text(i64::MAX), "9223372036854775807");
    assert_eq!(signed_decimal_text(i64::MIN), "-9223372036854775808");
}

#[test]
fn decimal_text_agrees_with_the_standard_library() {
    let mut n: u64 = 1;
    for _ in 0..19 {
        assert_eq!(decimal_text(n), n.to_string());
        assert_eq!(decimal_text(n - 1), (n - 1).to_string());
        assert_eq!(signed_decimal_text(-(n as i64)), (-(n as i64)).to_string());
        n *= 10;
    }
}

#[test]
fn joined_and_same_text() {
    assert_eq!(joined("https://api.openai.com/v1", "/files"), "https://api.openai.com/v1/files");
    assert_eq!(joined("", ""), "");
    assert!(same_text("user", "user"));
    assert!(!same_text("user", "User"));
    assert!(!same_text("user", "users"));
    assert!(same_text("", ""));
}

#[test]
fn percent_safe_identifiers() {
    assert!(is_percent_safe("file-XjGxS3KTG0uNmNOK362iJua3"));
    assert!(is_percent_safe("davinci:ft-personal-2023-04-01"));
    assert!(is_percent_safe("curie:ft-acme@team_1.2~x"));
    assert!(is_percent_safe(""));
    assert!(!is_percent_safe("a b"));
    assert!(!is_percent_safe("x/y"));
    assert!(!is_percent_safe("what?"));
    assert!(!is_percent_safe("frag#ment"));
    assert!(!is_percent_safe("100%"));
    assert!(!is_percent_safe("caf\u{e9}"));
}
