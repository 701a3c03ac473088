use threat_detection::text::{chars_of, contains_lit, str_eq, vec_contains};

#[test]
fn substring_search_finds_patterns() {
    let hay = chars_of("https://paypa1.example.com/login");
    assert!(contains_lit(&hay, "paypa"));
    assert!(contains_lit(&hay, "login"));
    assert!(contains_lit(&hay, "https://paypa1.example.com/login"));
    assert!(contains_lit(&hay, ""));
    assert!(!contains_lit(&hay, "amaz0n"));
    assert!(!contains_lit(&hay, "loginx"));
}

#[test]
fn search_handles_pattern_longer_than_haystack() {
    let hay = chars_of("ab");
    let pat = chars_of("abc");
    assert!(!vec_contains(&hay, &pat));
}

#[test]
fn string_equality_is_character_wise() {
    assert!(str_eq("url", "url"));
    assert!(!str_eq("url", "urn"));
    assert!(!str_eq("url", "url "));
    assert!(str_eq("", ""));
}
