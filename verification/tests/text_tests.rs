use prosody::text::{eq_str, format_signed, format_unsigned, join2, join3, join4};

#[test]
fn formats_unsigned_decimal() {
    assert_eq!(format_unsigned(0), "0");
    assert_eq!(format_unsigned(42), "42");
    assert_eq!(format_unsigned(4_294_967_295), "4294967295");
    assert_eq!(format_unsigned(u128::MAX), u128::MAX.to_string());
}

#[test]
fn formats_signed_decimal() {
    assert_eq!(format_signed(0), "0");
    assert_eq!(format_signed(-7), "-7");
    assert_eq!(format_signed(1234), "1234");
    assert_eq!(format_signed(i128::MIN), i128::MIN.to_string());
    assert_eq!(format_signed(i128::MAX), i128::MAX.to_string());
}

#[test]
fn joins_and_compares_text() {
    assert_eq!(join2("ab", "cd"), "abcd");
    assert_eq!(join3("a", "", "c"), "ac");
    assert_eq!(join4("w", "x", "y", "z"), "wxyz");
    assert!(eq_str("héllo", "héllo"));
    assert!(!eq_str("hello", "hell"));
    assert!(!eq_str("abc", "abd"));
    assert!(eq_str("", ""));
}
