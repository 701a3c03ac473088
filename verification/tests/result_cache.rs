use threat_detection::cache::ResultCache;

fn value(tag: &str) -> (bool, String, u32, String, Vec<String>) {
    (
        false,
        "phishing".to_string(),
        0,
        "low".to_string(),
        vec![tag.to_string()],
    )
}

#[test]
fn lookup_returns_what_was_inserted() {
    let mut cache = ResultCache::new(4);
    assert_eq!(cache.len(), 0);
    cache.insert("a".to_string(), value("va"));
    assert_eq!(cache.len(), 1);
    let got = cache.lookup(&"a".to_string()).expect("key a present");
    assert_eq!(got.4, vec!["va".to_string()]);
    assert!(cache.lookup(&"b".to_string()).is_none());
}

#[test]
fn reinserting_a_key_refreshes_its_recency() {
    let mut cache = ResultCache::new(2);
    cache.insert("a".to_string(), value("va"));
    cache.insert("b".to_string(), value("vb"));
    // Re-inserting "a" replaces its value and makes it the most recent,
    // so the next eviction takes "b".
    cache.insert("a".to_string(), value("va2"));
    assert_eq!(cache.len(), 2);
    cache.insert("c".to_string(), value("vc"));
    assert_eq!(cache.len(), 2);
    assert!(cache.lookup(&"b".to_string()).is_none());
    let a = cache.lookup(&"a".to_string()).expect("key a survives");
    assert_eq!(a.4, vec!["va2".to_string()]);
    assert!(cache.lookup(&"c".to_string()).is_some());
}

#[test]
fn eviction_takes_the_least_recently_inserted_key() {
    let mut cache = ResultCache::new(3);
    cache.insert("k1".to_string(), value("v1"));
    cache.insert("k2".to_string(), value("v2"));
    cache.insert("k3".to_string(), value("v3"));
    cache.insert("k4".to_string(), value("v4"));
    assert_eq!(cache.len(), 3);
    assert!(cache.lookup(&"k1".to_string()).is_none());
    assert!(cache.lookup(&"k2".to_string()).is_some());
    assert!(cache.lookup(&"k3".to_string()).is_some());
    assert!(cache.lookup(&"k4".to_string()).is_some());
}
