use threat_detection::dispatch::{detect_batch, health, AppState};
use threat_detection::{BatchDetectionRequest, ThreatDetectionRequest};

fn url_request(content: &str) -> ThreatDetectionRequest {
    ThreatDetectionRequest {
        threat_type: "url".to_string(),
        content: content.to_string(),
        context: None,
    }
}

#[test]
fn second_identical_call_is_served_from_cache() {
    let mut state = AppState::new(16);
    let req = ThreatDetectionRequest {
        threat_type: "url".to_string(),
        content: "http://192.168.1.1/login?verify=1".to_string(),
        context: Some("please verify".to_string()),
    };
    let first = state.detect_threat(&req, 3);
    let second = state.detect_threat(&req, 7);
    assert!(!first.cached);
    assert!(second.cached);
    assert_eq!(first.is_threat, second.is_threat);
    assert_eq!(first.threat_type, second.threat_type);
    assert_eq!(first.confidence, second.confidence);
    assert_eq!(first.severity, second.severity);
    assert_eq!(first.reasons, second.reasons);
    assert_eq!(first.latency_ms, 3);
    assert_eq!(second.latency_ms, 7);

    let stats = state.get_statistics();
    assert_eq!(stats.total_detections, 1);
    assert_eq!(stats.cache_hits, 1);
    assert_eq!(stats.cache_size, 1);
}

#[test]
fn unknown_kind_gets_well_formed_result() {
    let mut state = AppState::new(4);
    let req = ThreatDetectionRequest {
        threat_type: "file".to_string(),
        content: "whatever".to_string(),
        context: None,
    };
    let r = state.detect_threat(&req, 1);
    assert_eq!(r.threat_type.as_str(), "unknown");
    assert!(!r.is_threat);
    assert_eq!(r.confidence, 0);
    assert_eq!(r.severity.as_str(), "unknown");
    assert_eq!(r.reasons, vec!["Unknown threat type".to_string()]);
}

#[test]
fn counters_are_monotone_across_calls() {
    let mut state = AppState::new(64);
    let mut last_total = 0u64;
    let mut last_threats = 0u64;
    let contents = [
        "http://1.2.3.4/amaz0n",
        "https://ok.example.com",
        "http://1.2.3.4/amaz0n",
        "https://paypa.example.com",
    ];
    for (i, c) in contents.iter().enumerate() {
        state.detect_threat(&url_request(c), i as u64);
        let stats = state.get_statistics();
        assert!(stats.total_detections >= last_total);
        assert!(stats.threats_detected >= last_threats);
        last_total = stats.total_detections;
        last_threats = stats.threats_detected;
    }
    let stats = state.get_statistics();
    // three distinct requests classified, one repeat served from cache
    assert_eq!(stats.total_detections, 3);
    assert_eq!(stats.threats_detected, 1);
    assert_eq!(stats.cache_hits, 1);
}

#[test]
fn cache_occupancy_never_exceeds_capacity_and_lru_leaves_first() {
    let mut state = AppState::new(2);
    let a = url_request("https://a.example.com");
    let b = url_request("https://b.example.com");
    let c = url_request("https://c.example.com");

    state.detect_threat(&a, 0);
    state.detect_threat(&b, 0);
    assert_eq!(state.get_statistics().cache_size, 2);

    // a is the least recently inserted; c's insert evicts it.
    state.detect_threat(&c, 0);
    assert_eq!(state.get_statistics().cache_size, 2);

    let b_again = state.detect_threat(&b, 0);
    assert!(b_again.cached);
    let c_again = state.detect_threat(&c, 0);
    assert!(c_again.cached);
    let a_again = state.detect_threat(&a, 0);
    assert!(!a_again.cached);
    assert_eq!(state.get_statistics().cache_size, 2);
}

#[test]
fn batch_leaves_cache_and_stats_untouched() {
    let mut state = AppState::new(8);
    state.detect_threat(&url_request("https://warm.example.com"), 2);
    let before = state.get_statistics();

    let batch = BatchDetectionRequest {
        threats: vec![
            url_request("http://1.2.3.4/amaz0n"),
            ThreatDetectionRequest {
                threat_type: "code".to_string(),
                content: "eval(atob('...'))".to_string(),
                context: None,
            },
            ThreatDetectionRequest {
                threat_type: "action".to_string(),
                content: "login".to_string(),
                context: None,
            },
        ],
    };
    let resp = detect_batch(&batch, 11);
    assert_eq!(resp.results.len(), 3);
    assert_eq!(resp.total_latency_ms, 11);
    assert_eq!(resp.results[0].threat_type.as_str(), "phishing");
    assert!(resp.results[0].is_threat);
    assert_eq!(resp.results[1].threat_type.as_str(), "malware");
    assert_eq!(resp.results[1].confidence, 60);
    assert_eq!(resp.results[2].threat_type.as_str(), "behavioral");
    assert!(resp.results.iter().all(|r| !r.cached && r.latency_ms == 0));

    let after = state.get_statistics();
    assert_eq!(before.total_detections, after.total_detections);
    assert_eq!(before.threats_detected, after.threats_detected);
    assert_eq!(before.cache_hits, after.cache_hits);
    assert_eq!(before.cache_size, after.cache_size);
}

#[test]
fn latency_window_keeps_only_the_most_recent_thousand() {
    let mut state = AppState::new(2048);
    // 1001 distinct requests with latencies 0, 1, ..., 1000.
    for i in 0..=1000u64 {
        let req = url_request(&format!("https://host{}.example.com", i));
        state.detect_threat(&req, i);
    }
    let stats = state.get_statistics();
    assert_eq!(stats.total_detections, 1001);
    assert_eq!(stats.latency_window_len, 1000);
    // The window holds 1..=1000; sample 0 was evicted.
    let expected: u128 = (1..=1000u128).sum();
    assert_eq!(stats.latency_window_sum, expected);
}

#[test]
fn fresh_state_reports_zeroed_statistics() {
    let state = AppState::new(10000);
    let stats = state.get_statistics();
    assert_eq!(stats.total_detections, 0);
    assert_eq!(stats.threats_detected, 0);
    assert_eq!(stats.cache_hits, 0);
    assert_eq!(stats.cache_size, 0);
    assert_eq!(stats.latency_window_len, 0);
    assert_eq!(stats.latency_window_sum, 0);
}

#[test]
fn health_reports_static_status_and_version() {
    let h = health();
    assert_eq!(h.status.as_str(), "healthy");
    assert_eq!(h.version.as_str(), "1.0.0");
    assert!(!h.timestamp.is_empty());
}
