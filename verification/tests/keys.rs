use threat_detection::keyhash::{compute_cache_key, to_hex};

#[test]
fn hex_rendering_is_two_lowercase_digits_per_byte() {
    assert_eq!(to_hex(&vec![]).as_str(), "");
    assert_eq!(to_hex(&vec![0x00, 0xff, 0x1a]).as_str(), "00ff1a");
    assert_eq!(to_hex(&vec![0xde, 0xad, 0xbe, 0xef]).as_str(), "deadbeef");
}

#[test]
fn cache_key_is_the_sha256_of_the_joined_fields() {
    // sha256("url:http://example.com:")
    let k = compute_cache_key(&"url".to_string(), &"http://example.com".to_string(), &None);
    assert_eq!(
        k.as_str(),
        "020d073770b1e84010755bb13d263e23d31ffce0ea84e85660fcf1fe0ccb4e2e"
    );
    // sha256("url:http://example.com:hello")
    let k2 = compute_cache_key(
        &"url".to_string(),
        &"http://example.com".to_string(),
        &Some("hello".to_string()),
    );
    assert_eq!(
        k2.as_str(),
        "8481264c5b9da61b720999e0acb0412913a858bffb766dcc17a2beaefbb4b5bd"
    );
    // sha256("code:eval(x):")
    let k3 = compute_cache_key(&"code".to_string(), &"eval(x)".to_string(), &None);
    assert_eq!(
        k3.as_str(),
        "3dd1616e5a367a38f42dfd4e6f652c46f9cc59c601a41ef85cdcc5facb3f8a44"
    );
}

#[test]
fn cache_key_is_deterministic_and_fixed_length() {
    let a = compute_cache_key(&"url".to_string(), &"https://x.example.com".to_string(), &None);
    let b = compute_cache_key(&"url".to_string(), &"https://x.example.com".to_string(), &None);
    assert_eq!(a, b);
    assert_eq!(a.len(), 64);
    let c = compute_cache_key(&"url".to_string(), &"https://y.example.com".to_string(), &None);
    assert_ne!(a, c);
}
