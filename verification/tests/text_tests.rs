use spotify_dj::text::{contains, decimal_string, starts_with, str_eq};

#[test]
fn decimal_numerals() {
    assert_eq!(decimal_string(0), "0");
    assert_eq!(decimal_string(7), "7");
    assert_eq!(decimal_string(50), "50");
    assert_eq!(decimal_string(1234567890), "1234567890");
    assert_eq!(decimal_string(u64::MAX), "18446744073709551615");
}

#[test]
fn decimal_reads_back() {
    for n in [0u64, 9, 10, 99, 100, 4096, 123456] {
        assert_eq!(decimal_string(n).parse::<u64>().unwrap(), n);
    }
}

#[test]
fn text_predicates() {
    assert!(starts_with("spotify:track:x", "spotify:track:"));
    assert!(!starts_with("spotify:", "spotify:track:"));
    assert!(starts_with("abc", ""));
    assert!(contains("/x?error=1", "error="));
    assert!(!contains("/x?code=1", "error="));
    assert!(contains("", ""));
    assert!(str_eq("track", "track"));
    assert!(!str_eq("track", "tracks"));
}
