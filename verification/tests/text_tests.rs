use mac_state_monitor::text::{
    chars_contains, chars_starts_with, str_eq, str_to_chars, str_to_lower_chars, u64_to_string,
};

#[test]
fn decimal_rendering() {
    assert_eq!(u64_to_string(0), "0");
    assert_eq!(u64_to_string(7), "7");
    assert_eq!(u64_to_string(42), "42");
    assert_eq!(u64_to_string(1_000_000), "1000000");
    assert_eq!(u64_to_string(u64::MAX), "18446744073709551615");
}

#[test]
fn lowercase_folds_ascii_only() {
    let v = str_to_lower_chars("PMU Tdie1");
    let s: String = v.into_iter().collect();
    assert_eq!(s, "pmu tdie1");
    let v2 = str_to_lower_chars("ÄBC");
    let s2: String = v2.into_iter().collect();
    assert_eq!(s2, "Äbc");
}

#[test]
fn substring_and_prefix_search() {
    let hay = str_to_chars("pmu tdie1");
    assert!(chars_contains(&hay, &str_to_chars("tdie")));
    assert!(chars_contains(&hay, &str_to_chars("")));
    assert!(!chars_contains(&hay, &str_to_chars("gpu")));
    assert!(chars_starts_with(&hay, &str_to_chars("pmu ")));
    assert!(!chars_starts_with(&hay, &str_to_chars("tdie")));
}

#[test]
fn string_equality_by_characters() {
    assert!(str_eq("abc", "abc"));
    assert!(!str_eq("abc", "abd"));
    assert!(!str_eq("abc", "ab"));
    assert!(str_eq("", ""));
}
