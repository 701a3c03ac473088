//! The rule-based classifiers: phishing (URLs), malware (code snippets) and
//! behavioral (actions), plus the dispatch over a request's kind.
//!
//! Each classifier is a pure function whose result is pinned down by a spec
//! model: which signals fired, the accumulated confidence (in hundredths),
//! the severity bucket and the ordered reason strings.

use vstd::prelude::*;

use crate::text::{chars_of, contains_lit, contains_sub, digit_check, is_digit, match_at, str_eq};
use crate::{RequestModel, ResponseModel, ThreatDetectionRequest, ThreatDetectionResponse};

verus! {

/// The view of an optional borrowed string.
pub open spec fn opt_str_view(c: Option<&str>) -> Option<Seq<char>> {
    match c {
        Some(s) => Some(s@),
        None => None,
    }
}

/// Caps a confidence at 100 hundredths (a full unit-interval score of 1.0).
pub open spec fn clamp100(c: int) -> int {
    if c > 100 {
        100int
    } else {
        c
    }
}

// --- Phishing (kind "url") ---

/// The URL is unusually long: more than 200 characters.
pub open spec fn long_url_signal(url: Seq<char>) -> bool {
    url.len() > 200
}

/// The URL contains a look-alike brand substring.
pub open spec fn lookalike_signal(url: Seq<char>) -> bool {
    contains_sub(url, "paypa"@) || contains_sub(url, "amaz0n"@) || contains_sub(url, "go0gle"@)
}

/// The URL starts with a plain "http://" scheme followed immediately by a
/// decimal digit, as an IP-address literal would.
pub open spec fn ip_scheme_signal(url: Seq<char>) -> bool {
    url.len() > 7 && url.subrange(0, 7) == "http://"@ && is_digit(url[7])
}

/// The surrounding context carries verification-themed keywords.
pub open spec fn context_signal(ctx: Option<Seq<char>>) -> bool {
    match ctx {
        Some(c) => contains_sub(c, "verify"@) || contains_sub(c, "confirm"@),
        None => false,
    }
}

/// Sum of the weights of the phishing signals that fired.
pub open spec fn phishing_raw_confidence(url: Seq<char>, ctx: Option<Seq<char>>) -> int {
    (if long_url_signal(url) {
        30int
    } else {
        0int
    }) + (if lookalike_signal(url) {
        40int
    } else {
        0int
    }) + (if ip_scheme_signal(url) {
        30int
    } else {
        0int
    }) + (if context_signal(ctx) {
        20int
    } else {
        0int
    })
}

/// Severity bucket of a phishing confidence.
pub open spec fn phishing_severity(conf: int) -> Seq<char> {
    if conf >= 85 {
        "critical"@
    } else if conf >= 65 {
        "high"@
    } else if conf >= 45 {
        "medium"@
    } else {
        "low"@
    }
}

/// The ordered reasons of the phishing classifier, with the sentinel when no
/// signal fired.
pub open spec fn phishing_reasons(url: Seq<char>, ctx: Option<Seq<char>>) -> Seq<Seq<char>> {
    let r1 = if long_url_signal(url) {
        seq!["Unusually long URL"@]
    } else {
        Seq::<Seq<char>>::empty()
    };
    let r2 = if lookalike_signal(url) {
        r1.push("Suspicious domain pattern"@)
    } else {
        r1
    };
    let r3 = if ip_scheme_signal(url) {
        r2.push("Using IP address instead of domain"@)
    } else {
        r2
    };
    let r4 = if context_signal(ctx) {
        r3.push("Context contains phishing keywords"@)
    } else {
        r3
    };
    if r4.len() == 0 {
        seq!["URL appears legitimate"@]
    } else {
        r4
    }
}

/// The full phishing classification of a URL with optional context.
pub open spec fn phishing_model(url: Seq<char>, ctx: Option<Seq<char>>) -> ResponseModel {
    ResponseModel {
        is_threat: clamp100(phishing_raw_confidence(url, ctx)) >= 70,
        threat_type: "phishing"@,
        confidence: clamp100(phishing_raw_confidence(url, ctx)),
        severity: phishing_severity(clamp100(phishing_raw_confidence(url, ctx))),
        reasons: phishing_reasons(url, ctx),
        latency_ms: 0,
        cached: false,
    }
}

// --- Malware (kind "code") ---

/// The code calls a dynamic-evaluation primitive.
pub open spec fn dynamic_eval_signal(code: Seq<char>) -> bool {
    contains_sub(code, "eval"@) || contains_sub(code, "exec"@)
}

/// The code uses a known decoding or character-code obfuscation primitive.
pub open spec fn obfuscation_signal(code: Seq<char>) -> bool {
    contains_sub(code, "atob"@) || contains_sub(code, "String.fromCharCode"@)
}

/// The code carries an inline script or event-handler injection marker.
pub open spec fn injection_signal(code: Seq<char>) -> bool {
    contains_sub(code, "<script"@) || contains_sub(code, "onclick"@)
}

/// Sum of the weights of the malware signals that fired.
pub open spec fn malware_raw_confidence(code: Seq<char>) -> int {
    (if dynamic_eval_signal(code) {
        30int
    } else {
        0int
    }) + (if obfuscation_signal(code) {
        30int
    } else {
        0int
    }) + (if injection_signal(code) {
        30int
    } else {
        0int
    })
}

/// Severity bucket of a malware confidence; "low" is unreachable by design.
pub open spec fn malware_severity(conf: int) -> Seq<char> {
    if conf >= 85 {
        "critical"@
    } else if conf >= 65 {
        "high"@
    } else {
        "medium"@
    }
}

/// The ordered reasons of the malware classifier, with the sentinel when no
/// signal fired.
pub open spec fn malware_reasons(code: Seq<char>) -> Seq<Seq<char>> {
    let r1 = if dynamic_eval_signal(code) {
        seq!["Suspicious function detected"@]
    } else {
        Seq::<Seq<char>>::empty()
    };
    let r2 = if obfuscation_signal(code) {
        r1.push("Code obfuscation detected"@)
    } else {
        r1
    };
    let r3 = if injection_signal(code) {
        r2.push("Script injection pattern found"@)
    } else {
        r2
    };
    if r3.len() == 0 {
        seq!["Code appears safe"@]
    } else {
        r3
    }
}

/// The full malware classification of a code snippet.
pub open spec fn malware_model(code: Seq<char>) -> ResponseModel {
    ResponseModel {
        is_threat: clamp100(malware_raw_confidence(code)) >= 75,
        threat_type: "malware"@,
        confidence: clamp100(malware_raw_confidence(code)),
        severity: malware_severity(clamp100(malware_raw_confidence(code))),
        reasons: malware_reasons(code),
        latency_ms: 0,
        cached: false,
    }
}

// --- Behavioral (kind "action") and unknown kinds ---

/// The behavioral classifier's fixed placeholder result.
pub open spec fn behavior_model() -> ResponseModel {
    ResponseModel {
        is_threat: false,
        threat_type: "behavioral"@,
        confidence: 0,
        severity: "low"@,
        reasons: seq!["Behavior analysis pending"@],
        latency_ms: 0,
        cached: false,
    }
}

/// The well-formed result returned for an unrecognized request kind.
pub open spec fn unknown_model() -> ResponseModel {
    ResponseModel {
        is_threat: false,
        threat_type: "unknown"@,
        confidence: 0,
        severity: "unknown"@,
        reasons: seq!["Unknown threat type"@],
        latency_ms: 0,
        cached: false,
    }
}

/// Classification of a request by its kind, before latency stamping and
/// caching.
pub open spec fn classify_model(req: RequestModel) -> ResponseModel {
    if req.threat_type == "url"@ {
        phishing_model(req.content, req.context)
    } else if req.threat_type == "code"@ {
        malware_model(req.content)
    } else if req.threat_type == "action"@ {
        behavior_model()
    } else {
        unknown_model()
    }
}

/// Whether the URL starts with "http://" immediately followed by a digit.
fn http_digit_check(u: &Vec<char>) -> (r: bool)
    ensures
        r == ip_scheme_signal(u@),
{
    proof {
        reveal_strlit("http://");
    }
    if u.len() <= 7 {
        return false;
    }
    let p = chars_of("http://");
    if match_at(u, &p, 0) {
        digit_check(u[7])
    } else {
        false
    }
}

/// The phishing severity bucket as a string.
fn phishing_severity_str(conf: u32) -> (r: String)
    ensures
        r@ == phishing_severity(conf as int),
{
    if conf >= 85 {
        "critical".to_owned()
    } else if conf >= 65 {
        "high".to_owned()
    } else if conf >= 45 {
        "medium".to_owned()
    } else {
        "low".to_owned()
    }
}

/// The malware severity bucket as a string.
fn malware_severity_str(conf: u32) -> (r: String)
    ensures
        r@ == malware_severity(conf as int),
{
    if conf >= 85 {
        "critical".to_owned()
    } else if conf >= 65 {
        "high".to_owned()
    } else {
        "medium".to_owned()
    }
}

/// Classifies a URL (with optional context) against the phishing rules.
pub fn detect_phishing(url: &str, context: Option<&str>) -> (r: ThreatDetectionResponse)
    ensures
        r@ == phishing_model(url@, opt_str_view(context)),
{
    let u = chars_of(url);
    let mut confidence: u32 = 0;
    let mut reasons: Vec<String> = Vec::new();

    if u.len() > 200 {
        confidence = confidence + 30;
        reasons.push("Unusually long URL".to_owned());
    }
    proof {
        let g1 = if long_url_signal(url@) {
            seq!["Unusually long URL"@]
        } else {
            Seq::<Seq<char>>::empty()
        };
        assert(reasons.deep_view() =~= g1);
    }

    if contains_lit(&u, "paypa") || contains_lit(&u, "amaz0n") || contains_lit(&u, "go0gle") {
        confidence = confidence + 40;
        reasons.push("Suspicious domain pattern".to_owned());
    }

    if http_digit_check(&u) {
        confidence = confidence + 30;
        reasons.push("Using IP address instead of domain".to_owned());
    }

    match context {
        Some(ctx) => {
            let c = chars_of(ctx);
            if contains_lit(&c, "verify") || contains_lit(&c, "confirm") {
                confidence = confidence + 20;
                reasons.push("Context contains phishing keywords".to_owned());
            }
        },
        None => {},
    }
    proof {
        assert(confidence as int == phishing_raw_confidence(url@, opt_str_view(context)));
    }

    let is_threat = confidence >= 70;
    let clamped: u32 = if confidence > 100 {
        100
    } else {
        confidence
    };
    let severity = phishing_severity_str(clamped);
    let reasons_final: Vec<String> = if reasons.len() == 0 {
        let mut v: Vec<String> = Vec::new();
        v.push("URL appears legitimate".to_owned());
        v
    } else {
        reasons
    };
    proof {
        assert(reasons_final.deep_view() =~= phishing_reasons(url@, opt_str_view(context)));
    }
    ThreatDetectionResponse {
        is_threat,
        threat_type: "phishing".to_owned(),
        confidence: clamped,
        severity,
        reasons: reasons_final,
        latency_ms: 0,
        cached: false,
    }
}

/// Classifies a code snippet against the malware rules.
pub fn detect_malware(code: &str) -> (r: ThreatDetectionResponse)
    ensures
        r@ == malware_model(code@),
{
    let c = chars_of(code);
    let mut confidence: u32 = 0;
    let mut reasons: Vec<String> = Vec::new();

    if contains_lit(&c, "eval") || contains_lit(&c, "exec") {
        confidence = confidence + 30;
        reasons.push("Suspicious function detected".to_owned());
    }

    if contains_lit(&c, "atob") || contains_lit(&c, "String.fromCharCode") {
        confidence = confidence + 30;
        reasons.push("Code obfuscation detected".to_owned());
    }

    if contains_lit(&c, "<script") || contains_lit(&c, "onclick") {
        confidence = confidence + 30;
        reasons.push("Script injection pattern found".to_owned());
    }

    let is_threat = confidence >= 75;
    let clamped: u32 = if confidence > 100 {
        100
    } else {
        confidence
    };
    let severity = malware_severity_str(clamped);
    let reasons_final: Vec<String> = if reasons.len() == 0 {
        let mut v: Vec<String> = Vec::new();
        v.push("Code appears safe".to_owned());
        v
    } else {
        reasons
    };
    proof {
        assert(reasons_final.deep_view() =~= malware_reasons(code@));
    }
    ThreatDetectionResponse {
        is_threat,
        threat_type: "malware".to_owned(),
        confidence: clamped,
        severity,
        reasons: reasons_final,
        latency_ms: 0,
        cached: false,
    }
}

/// The behavioral classifier: a fixed non-threat placeholder result.
pub fn detect_behavior(action: &str) -> (r: ThreatDetectionResponse)
    ensures
        r@ == behavior_model(),
{
    let mut reasons: Vec<String> = Vec::new();
    reasons.push("Behavior analysis pending".to_owned());
    proof {
        assert(reasons.deep_view() =~= behavior_model().reasons);
    }
    ThreatDetectionResponse {
        is_threat: false,
        threat_type: "behavioral".to_owned(),
        confidence: 0,
        severity: "low".to_owned(),
        reasons,
        latency_ms: 0,
        cached: false,
    }
}

/// The result returned for a request whose kind no classifier recognizes.
fn unknown_response() -> (r: ThreatDetectionResponse)
    ensures
        r@ == unknown_model(),
{
    let mut reasons: Vec<String> = Vec::new();
    reasons.push("Unknown threat type".to_owned());
    proof {
        assert(reasons.deep_view() =~= unknown_model().reasons);
    }
    ThreatDetectionResponse {
        is_threat: false,
        threat_type: "unknown".to_owned(),
        confidence: 0,
        severity: "unknown".to_owned(),
        reasons,
        latency_ms: 0,
        cached: false,
    }
}

/// Classifies one request by dispatching on its kind.
pub fn classify_request(req: &ThreatDetectionRequest) -> (r: ThreatDetectionResponse)
    ensures
        r@ == classify_model(req@),
{
    let context: Option<&str> = match &req.context {
        Some(c) => Some(c.as_str()),
        None => None,
    };
    if str_eq(req.threat_type.as_str(), "url") {
        detect_phishing(req.content.as_str(), context)
    } else if str_eq(req.threat_type.as_str(), "code") {
        detect_malware(req.content.as_str())
    } else if str_eq(req.threat_type.as_str(), "action") {
        detect_behavior(req.content.as_str())
    } else {
        unknown_response()
    }
}

/// Every classification has a confidence between 0 and 100 hundredths and a
/// non-empty reason list.
pub proof fn lemma_confidence_bounds_and_reasons(req: RequestModel)
    ensures
        0 <= classify_model(req).confidence <= 100,
        classify_model(req).reasons.len() >= 1,
{
}

/// A result is a threat exactly when its confidence reaches its classifier's
/// threshold: 70 hundredths for phishing, 75 for malware, and never for the
/// behavioral or unknown kinds.
pub proof fn lemma_threat_threshold(req: RequestModel)
    ensures
        req.threat_type == "url"@ ==> (classify_model(req).is_threat <==> classify_model(
            req,
        ).confidence >= 70),
        req.threat_type == "code"@ ==> (classify_model(req).is_threat <==> classify_model(
            req,
        ).confidence >= 75),
        req.threat_type != "url"@ && req.threat_type != "code"@ ==> !classify_model(req).is_threat,
{
    reveal_strlit("url");
    reveal_strlit("code");
    assert("url"@.len() != "code"@.len());
}

} // verus!
