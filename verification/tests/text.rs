use njalla_cli::text::{
    characters, contains, decimal_string, is_affirmative, joined, str_eq, whitespace,
};

#[test]
fn whitespace_is_what_std_calls_whitespace() {
    for code in 0..=0x10FFFF_u32 {
        if let Some(c) = char::from_u32(code) {
            assert_eq!(whitespace(c), c.is_whitespace(), "U+{code:04X}");
        }
    }
}

#[test]
fn affirmative_is_a_trimmed_y_in_either_case() {
    let samples = [
        "", " ", "y", "Y", "n", "yes", " y", "y ", " y ", "\ny\n", "y\r\n", "\u{2003}Y\u{3000}",
        "yy", "y y", "Y\ty", "ý", "y\u{200B}", "\u{FEFF}y", "1", "Yes", " n ",
    ];
    for line in samples {
        assert_eq!(is_affirmative(line), line.trim().eq_ignore_ascii_case("y"), "{line:?}");
    }
    assert!(is_affirmative("y"));
    assert!(is_affirmative(" Y\n"));
    assert!(!is_affirmative("yes"));
    assert!(!is_affirmative(""));
}

#[test]
fn decimal_strings() {
    assert_eq!(decimal_string(0), "0");
    assert_eq!(decimal_string(7), "7");
    assert_eq!(decimal_string(10), "10");
    assert_eq!(decimal_string(300), "300");
    assert_eq!(decimal_string(1234567890), "1234567890");
    assert_eq!(decimal_string(u64::MAX), "18446744073709551615");
    for n in [9_u64, 99, 100, 101, 4096, 65535, 1_000_000_007] {
        assert_eq!(decimal_string(n), n.to_string());
    }
}

#[test]
fn string_equality() {
    assert!(str_eq("", ""));
    assert!(str_eq("available", "available"));
    assert!(!str_eq("available", "Available"));
    assert!(!str_eq("available", "available "));
    assert!(!str_eq("a", ""));
    assert!(str_eq("15 €", "15 €"));
    assert!(!str_eq("15 €", "15 £"));
}

#[test]
fn joined_texts() {
    assert_eq!(joined("", ""), "");
    assert_eq!(joined("example.com", " is already registered"), "example.com is already registered");
}

#[test]
fn contains_is_substring_search() {
    let samples = [
        ("", ""),
        ("abc", ""),
        ("", "a"),
        ("Waiting for transaction", "Waiting"),
        ("Waiting for transaction", "waiting"),
        ("payment confirmed", "confirmed"),
        ("payment confirme", "confirmed"),
        ("aab", "ab"),
        ("aaa", "aaaa"),
        ("15 € via Bitcoin", "€ via"),
        ("abcabd", "abd"),
    ];
    for (haystack, needle) in samples {
        assert_eq!(contains(haystack, needle), haystack.contains(needle), "{haystack:?} {needle:?}");
    }
    assert!(contains("Waiting for transaction", "for"));
    assert!(!contains("Waiting", "Waiting for"));
}

#[test]
fn characters_of_a_text() {
    assert_eq!(characters(""), Vec::<char>::new());
    assert_eq!(characters("a€b"), vec!['a', '€', 'b']);
}
