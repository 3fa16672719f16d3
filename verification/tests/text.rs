use macro_gen::decimal::{i32_text, u64_text};
use macro_gen::text::{concat_all, raw_ident, str_contains, strip_raw};

#[test]
fn decimal_texts() {
    assert_eq!(u64_text(0), "0");
    assert_eq!(u64_text(10), "10");
    assert_eq!(u64_text(u64::MAX), u64::MAX.to_string());
    assert_eq!(i32_text(-7), "-7");
    assert_eq!(i32_text(2024), "2024");
}

#[test]
fn substring_search() {
    assert!(str_contains("Result < u8 >", "Result"));
    assert!(str_contains("io :: Result", "Result"));
    assert!(!str_contains("Resul t", "Result"));
    assert!(str_contains("abc", ""));
    assert!(!str_contains("", "a"));
    assert!(str_contains("ééResult", "Result"));
}

#[test]
fn raw_identifiers() {
    assert!(raw_ident("r#type"));
    assert!(!raw_ident("rtype"));
    assert!(!raw_ident("r"));
    assert_eq!(strip_raw("r#type"), "type");
    assert_eq!(strip_raw("name"), "name");
}

#[test]
fn concatenation() {
    assert_eq!(concat_all(&vec!["a".to_string(), "bc".to_string(), String::new()]), "abc");
    assert_eq!(concat_all(&vec![]), "");
}
