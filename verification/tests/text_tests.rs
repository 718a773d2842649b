use typed_store::text::{check_float_text, parse_bool_text, parse_int_text};

#[test]
fn int_text_reads_plain_numbers() {
    assert_eq!(parse_int_text("0"), Some(0));
    assert_eq!(parse_int_text("30"), Some(30));
    assert_eq!(parse_int_text("-17"), Some(-17));
    assert_eq!(parse_int_text("007"), Some(7));
}

#[test]
fn int_text_accepts_up_to_eighteen_digits() {
    assert_eq!(parse_int_text("999999999999999999"), Some(999_999_999_999_999_999));
    assert_eq!(parse_int_text("-999999999999999999"), Some(-999_999_999_999_999_999));
    assert_eq!(parse_int_text("1000000000000000000"), None);
}

#[test]
fn int_text_rejects_malformed_input() {
    assert_eq!(parse_int_text(""), None);
    assert_eq!(parse_int_text("-"), None);
    assert_eq!(parse_int_text("12a"), None);
    assert_eq!(parse_int_text("1.5"), None);
    assert_eq!(parse_int_text(" 1"), None);
}

#[test]
fn float_text_accepts_decimal_forms() {
    assert!(check_float_text("30"));
    assert!(check_float_text("3.25"));
    assert!(check_float_text("-3.5"));
    assert!(check_float_text("-7"));
    assert!(check_float_text("0.0"));
}

#[test]
fn float_text_rejects_malformed_input() {
    assert!(!check_float_text(""));
    assert!(!check_float_text("-"));
    assert!(!check_float_text("3."));
    assert!(!check_float_text(".5"));
    assert!(!check_float_text("3.2.1"));
    assert!(!check_float_text("1e5"));
    assert!(!check_float_text("abc"));
}

#[test]
fn bool_text_is_exactly_true_or_false() {
    assert_eq!(parse_bool_text("true"), Some(true));
    assert_eq!(parse_bool_text("false"), Some(false));
    assert_eq!(parse_bool_text("True"), None);
    assert_eq!(parse_bool_text("1"), None);
    assert_eq!(parse_bool_text(""), None);
}
