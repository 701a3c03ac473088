use threat_detection::classify::{detect_behavior, detect_malware, detect_phishing};

#[test]
fn ip_literal_url_with_verification_context() {
    let r = detect_phishing("http://192.168.1.1/login?verify=1", Some("please verify"));
    assert_eq!(r.confidence, 50);
    assert!(!r.is_threat);
    assert_eq!(r.severity.as_str(), "medium");
    assert_eq!(r.threat_type.as_str(), "phishing");
    assert_eq!(
        r.reasons,
        vec![
            "Using IP address instead of domain".to_string(),
            "Context contains phishing keywords".to_string(),
        ]
    );
    assert_eq!(r.latency_ms, 0);
    assert!(!r.cached);
}

#[test]
fn eval_with_obfuscation_is_medium_but_below_threshold() {
    let r = detect_malware("eval(atob('...'))");
    assert_eq!(r.confidence, 60);
    assert!(!r.is_threat);
    assert_eq!(r.severity.as_str(), "medium");
    assert_eq!(r.threat_type.as_str(), "malware");
    assert_eq!(
        r.reasons,
        vec![
            "Suspicious function detected".to_string(),
            "Code obfuscation detected".to_string(),
        ]
    );
}

#[test]
fn behavior_is_always_benign_placeholder() {
    let r = detect_behavior("anything");
    assert!(!r.is_threat);
    assert_eq!(r.confidence, 0);
    assert_eq!(r.severity.as_str(), "low");
    assert_eq!(r.threat_type.as_str(), "behavioral");
    assert_eq!(r.reasons, vec!["Behavior analysis pending".to_string()]);
}

#[test]
fn long_url_signal_fires_above_200_chars() {
    let long_url = format!("https://example.com/{}", "a".repeat(200));
    let r = detect_phishing(&long_url, None);
    assert_eq!(r.confidence, 30);
    assert!(!r.is_threat);
    assert_eq!(r.severity.as_str(), "low");
    assert_eq!(r.reasons, vec!["Unusually long URL".to_string()]);

    let exactly_200 = "b".repeat(200);
    let r2 = detect_phishing(&exactly_200, None);
    assert_eq!(r2.confidence, 0);
    assert_eq!(r2.reasons, vec!["URL appears legitimate".to_string()]);
}

#[test]
fn lookalike_domain_signal() {
    let r = detect_phishing("https://paypa1-secure.example.com", None);
    assert_eq!(r.confidence, 40);
    assert!(!r.is_threat);
    assert_eq!(r.severity.as_str(), "low");
    assert_eq!(r.reasons, vec!["Suspicious domain pattern".to_string()]);
}

#[test]
fn all_phishing_signals_cross_threshold_and_clamp() {
    let url = format!("http://1.2.3.4/{}paypa{}", "x".repeat(100), "y".repeat(100));
    let r = detect_phishing(&url, Some("please confirm your account"));
    // 30 + 40 + 30 + 20 = 120, clamped to 100.
    assert_eq!(r.confidence, 100);
    assert!(r.is_threat);
    assert_eq!(r.severity.as_str(), "critical");
    assert_eq!(r.reasons.len(), 4);
}

#[test]
fn phishing_threshold_is_70() {
    // lookalike (40) + ip literal (30) = 70: exactly at the threshold.
    let r = detect_phishing("http://1.2.3.4/amaz0n", None);
    assert_eq!(r.confidence, 70);
    assert!(r.is_threat);
    assert_eq!(r.severity.as_str(), "high");
}

#[test]
fn http_scheme_without_digit_does_not_fire() {
    let r = detect_phishing("http://example.com", None);
    assert_eq!(r.confidence, 0);
    assert_eq!(r.reasons, vec!["URL appears legitimate".to_string()]);
}

#[test]
fn all_malware_signals_cross_threshold() {
    let r = detect_malware("eval(String.fromCharCode(60)); document.write('<script>')");
    assert_eq!(r.confidence, 90);
    assert!(r.is_threat);
    assert_eq!(r.severity.as_str(), "critical");
    assert_eq!(r.reasons.len(), 3);
}

#[test]
fn benign_code_gets_sentinel_reason() {
    let r = detect_malware("let x = 1 + 2;");
    assert_eq!(r.confidence, 0);
    assert!(!r.is_threat);
    assert_eq!(r.severity.as_str(), "medium");
    assert_eq!(r.reasons, vec!["Code appears safe".to_string()]);
}

#[test]
fn benign_url_with_context_lacking_keywords() {
    let r = detect_phishing("https://rust-lang.org", Some("language homepage"));
    assert_eq!(r.confidence, 0);
    assert!(!r.is_threat);
    assert_eq!(r.reasons, vec!["URL appears legitimate".to_string()]);
}
