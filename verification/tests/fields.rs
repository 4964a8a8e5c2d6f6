//! Form-field validation rules.

use smpp_multipart::fields::{
    is_c_octet, parse_enquire_link_interval, parse_priority_flag, parse_u8_field, parse_u64_field,
    validate_destination_addr, validate_password, validate_service_type, validate_source_addr,
    validate_system_id, validate_system_type,
};
use smpp_multipart::result::{AppUiError, SmppFieldError};

#[test]
fn c_octet_rules_length_ascii_and_nul() {
    assert!(is_c_octet("", 5));
    assert!(is_c_octet("hello", 5));
    assert!(!is_c_octet("hello!", 5));
    assert!(!is_c_octet("caf\u{e9}", 10));
    assert!(!is_c_octet("a\u{0}b", 10));
}

#[test]
fn each_text_field_has_its_own_cap() {
    assert!(validate_system_id(&"a".repeat(15)).is_ok());
    assert!(validate_system_id(&"a".repeat(16)).is_err());
    assert!(validate_password(&"a".repeat(8)).is_ok());
    assert!(validate_password(&"a".repeat(9)).is_err());
    assert!(validate_system_type(&"a".repeat(12)).is_ok());
    assert!(validate_system_type(&"a".repeat(13)).is_err());
    assert!(validate_service_type(&"a".repeat(5)).is_ok());
    assert!(validate_service_type(&"a".repeat(6)).is_err());
    assert!(validate_source_addr(&"a".repeat(20)).is_ok());
    assert!(validate_source_addr(&"a".repeat(21)).is_err());
    assert!(validate_destination_addr(&"a".repeat(20)).is_ok());
    assert!(validate_destination_addr(&"a".repeat(21)).is_err());
}

#[test]
fn u8_fields_take_plain_decimal_up_to_255() {
    assert_eq!(parse_u8_field("0"), Some(0));
    assert_eq!(parse_u8_field("255"), Some(255));
    assert_eq!(parse_u8_field("007"), Some(7));
    assert_eq!(parse_u8_field("256"), None);
    assert_eq!(parse_u8_field(""), None);
    assert_eq!(parse_u8_field("12a"), None);
    assert_eq!(parse_u8_field("-1"), None);
    assert_eq!(parse_u8_field(" 1"), None);
}

#[test]
fn u64_fields_take_plain_decimal_up_to_the_limit() {
    assert_eq!(parse_u64_field("0"), Some(0));
    assert_eq!(parse_u64_field("30"), Some(30));
    assert_eq!(
        parse_u64_field("18446744073709551615"),
        Some(u64::MAX)
    );
    assert_eq!(parse_u64_field("18446744073709551616"), None);
    assert_eq!(parse_u64_field("ten"), None);
}

#[test]
fn numeric_field_wrappers_report_their_field() {
    assert_eq!(
        parse_priority_flag("abc").unwrap_err(),
        AppUiError::Field(SmppFieldError::PriorityFlag)
    );
    assert_eq!(parse_priority_flag("3").unwrap(), 3);
    assert_eq!(
        parse_enquire_link_interval("").unwrap_err(),
        AppUiError::Field(SmppFieldError::EnquireLinkInterval)
    );
    assert_eq!(parse_enquire_link_interval("30").unwrap(), 30);
}
