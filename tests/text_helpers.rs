use idsmith_web::text::{bool_str, decimal_string, join_texts, same_text};

#[test]
fn decimal_text() {
    assert_eq!(decimal_string(0), "0");
    assert_eq!(decimal_string(7), "7");
    assert_eq!(decimal_string(1050), "1050");
    assert_eq!(decimal_string(u64::MAX), "18446744073709551615");
}

#[test]
fn joining_and_arrays() {
    let v = vec!["a".to_string(), "b".to_string(), "c".to_string()];
    assert_eq!(join_texts(&v, ", "), "a, b, c");
    assert_eq!(join_texts(&vec![], ", "), "");
}

#[test]
fn text_equality_and_booleans() {
    assert!(same_text("EE", "EE"));
    assert!(!same_text("EE", "E"));
    assert!(!same_text("EE", "ee"));
    assert_eq!(bool_str(true), "true");
    assert_eq!(bool_str(false), "false");
}
