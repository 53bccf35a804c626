use roastcraft::text::{matches_word, render_decimal, render_one_decimal};

#[test]
fn decimal_renders_without_leading_zeros() {
    assert_eq!(render_decimal(0), "0");
    assert_eq!(render_decimal(7), "7");
    assert_eq!(render_decimal(80), "80");
    assert_eq!(render_decimal(65535), "65535");
}

#[test]
fn one_decimal_keeps_one_fractional_digit() {
    assert_eq!(render_one_decimal(305), "30.5");
    assert_eq!(render_one_decimal(0), "0.0");
    assert_eq!(render_one_decimal(9), "0.9");
    assert_eq!(render_one_decimal(2560), "256.0");
}

#[test]
fn words_match_in_either_case() {
    assert!(matches_word("even", "even", "EVEN"));
    assert!(matches_word("EvEn", "even", "EVEN"));
    assert!(!matches_word("eve", "even", "EVEN"));
    assert!(!matches_word("odd", "even", "EVEN"));
}
