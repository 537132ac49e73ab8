//! The local validation rules: the password policy and the amount grammar.

use finance_tracker::validate::{validate_password, parse_amount_cents};

fn check(password: &str) -> Option<String> {
    validate_password(&password.to_string())
}

#[test]
fn password_too_short_is_rejected_first() {
    assert_eq!(
        check("A1a"),
        Some("Password must be at least 6 characters".to_string())
    );
}

#[test]
fn password_without_uppercase_is_rejected() {
    assert_eq!(
        check("passw0rd"),
        Some("Password must contain at least one uppercase letter".to_string())
    );
}

#[test]
fn password_without_digit_is_rejected() {
    assert_eq!(
        check("Password"),
        Some("Password must contain at least one number".to_string())
    );
}

#[test]
fn password_meeting_all_rules_passes() {
    assert_eq!(check("Passw0rd"), None);
}

#[test]
fn password_rules_check_in_order_length_first() {
    // Short AND missing uppercase AND missing digit: the length message wins.
    assert_eq!(
        check("ab"),
        Some("Password must be at least 6 characters".to_string())
    );
    // Long enough, missing both uppercase and digit: uppercase wins.
    assert_eq!(
        check("abcdefg"),
        Some("Password must contain at least one uppercase letter".to_string())
    );
}

#[test]
fn password_length_counts_bytes() {
    // Five characters, but more than six UTF-8 bytes: the length rule passes.
    assert_eq!(
        check("\u{00c4}\u{00d6}\u{00dc}\u{00c5}7"),
        None
    );
}

#[test]
fn amount_plain_decimal() {
    assert_eq!(parse_amount_cents("4.50"), 450);
    assert_eq!(parse_amount_cents("12.3"), 1230);
    assert_eq!(parse_amount_cents("7"), 700);
    assert_eq!(parse_amount_cents("0.05"), 5);
}

#[test]
fn amount_dot_edge_forms() {
    assert_eq!(parse_amount_cents("4."), 400);
    assert_eq!(parse_amount_cents(".5"), 50);
    assert_eq!(parse_amount_cents("0"), 0);
}

#[test]
fn amount_empty_or_non_numeric_is_zero() {
    assert_eq!(parse_amount_cents(""), 0);
    assert_eq!(parse_amount_cents("abc"), 0);
    assert_eq!(parse_amount_cents("4,50"), 0);
    assert_eq!(parse_amount_cents("-3"), 0);
    assert_eq!(parse_amount_cents("1.2.3"), 0);
    assert_eq!(parse_amount_cents("4.505"), 0);
    assert_eq!(parse_amount_cents("."), 0);
}
