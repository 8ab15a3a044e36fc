use identity::text::{decimal_string, signed_decimal_string, str_eq};

#[test]
fn decimal_rendering() {
    assert_eq!(decimal_string(0), "0");
    assert_eq!(decimal_string(7), "7");
    assert_eq!(decimal_string(10), "10");
    assert_eq!(decimal_string(4320), "4320");
    assert_eq!(decimal_string(u64::MAX), u64::MAX.to_string());
}

#[test]
fn signed_decimal_rendering() {
    assert_eq!(signed_decimal_string(0), "0");
    assert_eq!(signed_decimal_string(-5), "-5");
    assert_eq!(signed_decimal_string(1920), "1920");
    assert_eq!(signed_decimal_string(i64::MIN), i64::MIN.to_string());
    assert_eq!(signed_decimal_string(i64::MAX), i64::MAX.to_string());
}

#[test]
fn string_equality_by_characters() {
    assert!(str_eq("row", "row"));
    assert!(!str_eq("row", "rows"));
    assert!(!str_eq("row", "Row"));
    assert!(str_eq("", ""));
    assert!(str_eq("黑风", "黑风"));
}
