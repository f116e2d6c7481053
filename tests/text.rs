use rocky::text::{contains_text, i32_text, u64_text};

#[test]
fn decimal_texts() {
    assert_eq!(u64_text(0), "0");
    assert_eq!(u64_text(1500), "1500");
    assert_eq!(u64_text(u64::MAX), "18446744073709551615");
    assert_eq!(i32_text(-5), "-5");
    assert_eq!(i32_text(i32::MIN), "-2147483648");
    assert_eq!(i32_text(i32::MAX), "2147483647");
}

#[test]
fn substring_search() {
    assert!(contains_text("Execution context was destroyed", "context was"));
    assert!(contains_text("abc", ""));
    assert!(!contains_text("ab", "abc"));
    assert!(!contains_text("Timeout", "timeout"));
    assert!(contains_text("aab", "ab"));
}
