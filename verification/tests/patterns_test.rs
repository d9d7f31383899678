use sepa_mandates::patterns::{contains_bic_shape, matches_date_shape, matches_iban_shape, str_eq};

#[test]
fn date_shape_accepts_day_month_year() {
    assert!(matches_date_shape("20-01-1902"));
    assert!(matches_date_shape("01-12-2022"));
}

#[test]
fn date_shape_rejects_other_orders_and_lengths() {
    assert!(!matches_date_shape("1924-01-19"));
    assert!(!matches_date_shape("20/01/1902"));
    assert!(!matches_date_shape("2-1-1902"));
    assert!(!matches_date_shape(""));
    assert!(!matches_date_shape("20-01-1902x"));
}

#[test]
fn iban_shape_accepts_spaced_and_compact_forms() {
    assert!(matches_iban_shape("DE89 3704 0044 0532 0130 00"));
    assert!(matches_iban_shape("DE89370400440532013000"));
    assert!(matches_iban_shape("NL02 1234 5678 9012 3456"));
    assert!(matches_iban_shape("FR76 3000 6000 0112 3456 78"));
}

#[test]
fn iban_shape_rejects_malformed_accounts() {
    assert!(!matches_iban_shape("de89 3704 0044 0532 0130 00"));
    assert!(!matches_iban_shape("DE89 3704 0044 0532"));
    assert!(!matches_iban_shape("DE89 3704 0044 0532 013"));
    assert!(!matches_iban_shape("D189 3704 0044 0532 0130 00"));
    assert!(!matches_iban_shape(""));
    assert!(!matches_iban_shape("DE89  3704 0044 0532 0130"));
}

#[test]
fn bic_shape_found_anywhere_in_the_text() {
    assert!(contains_bic_shape("DEUTDEFF"));
    assert!(contains_bic_shape("MARKDEF1"));
    assert!(contains_bic_shape("DEUTDEFF500"));
    assert!(contains_bic_shape("bic: DEUTDEFF, primary"));
}

#[test]
fn bic_shape_rejects_short_or_misplaced_classes() {
    assert!(!contains_bic_shape("DEUTDE"));
    assert!(!contains_bic_shape("deutdeff"));
    assert!(!contains_bic_shape("ABCDEFGO"));
    assert!(!contains_bic_shape(""));
}

#[test]
fn str_eq_compares_characters() {
    assert!(str_eq("", ""));
    assert!(str_eq("abc", "abc"));
    assert!(!str_eq("abc", "abd"));
    assert!(!str_eq("abc", "abcd"));
}
