use decker::analog::{halve_toward_zero, is_outside_deadzone, magnitude, round_to_whole};
use decker::text::{decimal_string, join, str_equals, to_lowercase};

#[test]
fn decimal_strings() {
    assert_eq!(decimal_string(0), "0");
    assert_eq!(decimal_string(42), "42");
    assert_eq!(decimal_string(-7), "-7");
    assert_eq!(decimal_string(i32::MIN), "-2147483648");
}

#[test]
fn lowercasing() {
    assert_eq!(to_lowercase("CTRL+Plus"), "ctrl+plus");
    assert_eq!(to_lowercase("page_down"), "page_down");
}

#[test]
fn joining() {
    let parts = vec!["ctrl".to_string(), "alt".to_string(), "t".to_string()];
    assert_eq!(join(&parts, "+"), "ctrl+alt+t");
    assert_eq!(join(&vec!["F11".to_string()], "+"), "F11");
    assert_eq!(join(&vec![], "+"), "");
}

#[test]
fn equality() {
    assert!(str_equals("next_page", "next_page"));
    assert!(!str_equals("next_page", "Next_page"));
}

#[test]
fn rounding_to_whole_pixels() {
    assert_eq!(round_to_whole(0), 0);
    assert_eq!(round_to_whole(500_000), 1);
    assert_eq!(round_to_whole(499_999), 0);
    assert_eq!(round_to_whole(-500_000), -1);
    assert_eq!(round_to_whole(-499_999), 0);
    assert_eq!(round_to_whole(12_000_000), 12);
    assert_eq!(round_to_whole(i64::MAX), i32::MAX);
    assert_eq!(round_to_whole(i64::MIN), i32::MIN);
}

#[test]
fn deadzone_checks() {
    assert_eq!(magnitude(i32::MIN), 2_147_483_648);
    assert!(is_outside_deadzone(0, -150_001, 150_000));
    assert!(!is_outside_deadzone(150_000, -150_000, 150_000));
    assert!(is_outside_deadzone(1, 0, -1));
    assert_eq!(halve_toward_zero(3), 1);
    assert_eq!(halve_toward_zero(-3), -1);
}
