use pro::text::{repeat_spaces, str_eq, str_starts_with, to_decimal};

#[test]
fn string_equality_is_exact() {
    assert!(str_eq("", ""));
    assert!(str_eq("abc", "abc"));
    assert!(!str_eq("abc", "abd"));
    assert!(!str_eq("abc", "ab"));
    assert!(str_eq("naïve", "naïve"));
}

#[test]
fn prefix_test() {
    assert!(str_starts_with("/open?project=x", "/open"));
    assert!(str_starts_with("/open", "/open"));
    assert!(!str_starts_with("/ope", "/open"));
    assert!(!str_starts_with("/list", "/open"));
    assert!(str_starts_with("anything", ""));
}

#[test]
fn space_runs() {
    assert_eq!(repeat_spaces(0), "");
    assert_eq!(repeat_spaces(4), "    ");
}

#[test]
fn decimal_rendering() {
    assert_eq!(to_decimal(0), "0");
    assert_eq!(to_decimal(7), "7");
    assert_eq!(to_decimal(10), "10");
    assert_eq!(to_decimal(12345), "12345");
    assert_eq!(to_decimal(1000000), "1000000");
}
