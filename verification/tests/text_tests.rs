use serial_ssh_term::text::{is_blank, str_ci_matches, str_eq, u64_to_dec};

#[test]
fn renders_single_digits() {
    assert_eq!(u64_to_dec(0), "0");
    assert_eq!(u64_to_dec(7), "7");
    assert_eq!(u64_to_dec(9), "9");
}

#[test]
fn renders_multi_digit_numbers() {
    assert_eq!(u64_to_dec(10), "10");
    assert_eq!(u64_to_dec(22), "22");
    assert_eq!(u64_to_dec(9600), "9600");
    assert_eq!(u64_to_dec(115200), "115200");
    assert_eq!(u64_to_dec(65535), "65535");
    assert_eq!(u64_to_dec(u64::MAX), "18446744073709551615");
}

#[test]
fn compares_strings_exactly() {
    assert!(str_eq("Odd", "Odd"));
    assert!(!str_eq("Odd", "odd"));
    assert!(!str_eq("Odd", "Od"));
    assert!(str_eq("", ""));
    assert!(!str_eq("", "x"));
}

#[test]
fn matches_ascii_case_insensitively() {
    assert!(str_ci_matches("light", "light"));
    assert!(str_ci_matches("LIGHT", "light"));
    assert!(str_ci_matches("LiGhT", "light"));
    assert!(!str_ci_matches("light ", "light"));
    assert!(!str_ci_matches("dark", "light"));
    // The reference spelling is the second argument: a capital there does
    // not match a lowercase input.
    assert!(!str_ci_matches("light", "LIGHT"));
}

#[test]
fn blank_detection_trims_whitespace() {
    // Would fail if the trimming wrapper handed its argument back
    // unchanged.
    assert!(is_blank(""));
    assert!(is_blank("   "));
    assert!(is_blank(" \t\r\n "));
    assert!(!is_blank(" x "));
}
