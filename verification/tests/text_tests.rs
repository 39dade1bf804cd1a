use winvestour_desktop::text::{str_contains, str_ends_with, str_equals};

#[test]
fn contains_finds_inner_word() {
    assert!(str_contains("com.winvestour.commerce", "commerce"));
    assert!(str_contains("abc", ""));
    assert!(!str_contains("com.winvestour.social", "staff"));
    assert!(!str_contains("ab", "abc"));
}

#[test]
fn contains_handles_non_ascii() {
    assert!(str_contains("çatı-hub", "hub"));
    assert!(!str_contains("çatı", "cat"));
}

#[test]
fn ends_with_checks_suffix() {
    assert!(str_ends_with("app.winvestour.com", ".winvestour.com"));
    assert!(!str_ends_with("winvestour.com", ".winvestour.com"));
    assert!(!str_ends_with("winvestour.com.evil.net", ".winvestour.com"));
}

#[test]
fn equals_compares_characters() {
    assert!(str_equals("winvestour.com", "winvestour.com"));
    assert!(!str_equals("winvestour.co", "winvestour.com"));
    assert!(str_equals("", ""));
}
