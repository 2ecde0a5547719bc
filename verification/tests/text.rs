//! Tests of the verified text helpers.

use scoring_config::text::{
    build_hyphen_join3, build_service_context, join_comma, str_contains_char, str_eq,
    str_replace_placeholder, template_has_placeholder, u8_to_decimal,
};

#[test]
fn decimal_rendering_of_eight_bit_numbers() {
    assert_eq!(u8_to_decimal(0), "0");
    assert_eq!(u8_to_decimal(7), "7");
    assert_eq!(u8_to_decimal(42), "42");
    assert_eq!(u8_to_decimal(100), "100");
    assert_eq!(u8_to_decimal(255), "255");
}

#[test]
fn placeholder_replacement_covers_both_cases() {
    assert_eq!(str_replace_placeholder("10.0.0.x", "3"), "10.0.0.3");
    assert_eq!(str_replace_placeholder("X-x", "25"), "25-25");
    assert_eq!(str_replace_placeholder("10.0.0.9", "3"), "10.0.0.9");
    assert_eq!(str_replace_placeholder("", "3"), "");
}

#[test]
fn placeholder_detection() {
    assert!(template_has_placeholder("10.0.0.x"));
    assert!(template_has_placeholder("10.0.0.X"));
    assert!(!template_has_placeholder("10.0.0.9"));
    assert!(!template_has_placeholder(""));
}

#[test]
fn comma_joining() {
    assert_eq!(join_comma(&vec![]), "");
    assert_eq!(join_comma(&vec!["a".to_string()]), "a");
    assert_eq!(
        join_comma(&vec!["a".to_string(), "b".to_string(), "c".to_string()]),
        "a, b, c",
    );
}

#[test]
fn hyphen_joining_builds_service_names() {
    assert_eq!(build_hyphen_join3("web1", "HTTPCheck", "site"), "web1-HTTPCheck-site");
}

#[test]
fn service_context_names_machine_and_service() {
    assert_eq!(build_service_context("web1", "site"), "service web1-site");
}

#[test]
fn character_search() {
    assert!(str_contains_char("bob@example.test", '@'));
    assert!(!str_contains_char("bob", '@'));
    assert!(!str_contains_char("", '@'));
}

#[test]
fn string_equality_by_characters() {
    assert!(str_eq("abc", "abc"));
    assert!(!str_eq("abc", "abd"));
    assert!(!str_eq("abc", "ab"));
}
