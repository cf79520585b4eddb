use coffee_hit::number::{is_number, numeric_dose, numeric_time, numeric_value, parse_usize, require_grind_setting};

#[test]
fn is_number_accepts_decimals() {
    assert!(is_number("18"));
    assert!(is_number("-2.5"));
    assert!(is_number("3."));
    assert!(is_number(".5"));
    assert!(!is_number(""));
    assert!(!is_number("-"));
    assert!(!is_number("."));
    assert!(!is_number("1.2.3"));
    assert!(!is_number("1e5"));
    assert!(!is_number("+1"));
}

#[test]
fn unit_suffixes_are_removed() {
    assert_eq!(numeric_value(" 28 s "), "28");
    assert_eq!(numeric_value("18g"), "18");
    assert_eq!(numeric_dose("18 g"), "18");
    assert_eq!(numeric_dose("28s"), "28s");
    assert_eq!(numeric_time("28s"), "28");
    assert_eq!(numeric_time("18g"), "18g");
}

#[test]
fn grind_settings_from_one_to_forty() {
    assert!(require_grind_setting("1").is_ok());
    assert!(require_grind_setting("40").is_ok());
    assert!(require_grind_setting("12.5").is_ok());
    assert_eq!(require_grind_setting("41").unwrap_err().message(), "grind must be between 1 and 40");
    assert_eq!(require_grind_setting("0.5").unwrap_err().message(), "grind must be between 1 and 40");
    assert_eq!(require_grind_setting("-0").unwrap_err().message(), "grind must be between 1 and 40");
    assert_eq!(require_grind_setting("fine").unwrap_err().message(), "grind must be numeric");
    // within half a unit in the last place of 40 and of 1 once read as doubles
    assert!(require_grind_setting("40.000000000000003").is_ok());
    assert!(require_grind_setting("0.99999999999999995").is_ok());
    assert!(require_grind_setting("40.00000000000001").is_err());
}

#[test]
fn usize_parsing() {
    assert_eq!(parse_usize("3"), Some(3));
    assert_eq!(parse_usize("+7"), Some(7));
    assert_eq!(parse_usize(""), None);
    assert_eq!(parse_usize("-1"), None);
    assert_eq!(parse_usize("18446744073709551616"), None);
}
