use chainrpc::strutil::{str_eq, u64_to_decimal};

#[test]
fn decimal_rendering_matches_the_usual_form() {
    assert_eq!(u64_to_decimal(0), "0");
    assert_eq!(u64_to_decimal(7), "7");
    assert_eq!(u64_to_decimal(10), "10");
    assert_eq!(u64_to_decimal(12345), "12345");
    assert_eq!(u64_to_decimal(u64::MAX), u64::MAX.to_string());
}

#[test]
fn string_equality_is_exact_and_case_sensitive() {
    assert!(str_eq("http", "http"));
    assert!(!str_eq("http", "HTTP"));
    assert!(!str_eq("http", "https"));
    assert!(!str_eq("", "x"));
    assert!(str_eq("", ""));
}
