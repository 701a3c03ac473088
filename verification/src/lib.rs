//! Core of a threat-detection service: rule-based classifiers for URLs, code
//! snippets and behavioral actions, a bounded least-recently-used cache of
//! classification results, and aggregate statistics with a bounded latency
//! window.
//!
//! Confidence scores are carried as integer hundredths of the unit interval
//! (0 through 100), so that all score arithmetic is exact.

use vstd::prelude::*;

pub mod cache;
pub mod classify;
pub mod dispatch;
pub mod keyhash;
pub mod stats;
pub mod text;

verus! {

/// A single classification request: what kind of content is submitted
/// ("url", "code" or "action"), the content itself, and optional
/// surrounding context.
pub struct ThreatDetectionRequest {
    pub threat_type: String,
    pub content: String,
    pub context: Option<String>,
}

/// Mathematical model of a request.
pub ghost struct RequestModel {
    pub threat_type: Seq<char>,
    pub content: Seq<char>,
    pub context: Option<Seq<char>>,
}

impl View for ThreatDetectionRequest {
    type V = RequestModel;

    open spec fn view(&self) -> RequestModel {
        RequestModel {
            threat_type: self.threat_type@,
            content: self.content@,
            context: match self.context {
                Some(c) => Some(c@),
                None => None,
            },
        }
    }
}

/// The outcome of classifying one request. `confidence` is in hundredths:
/// 0 means 0.0 and 100 means 1.0 on the unit-interval scale.
pub struct ThreatDetectionResponse {
    pub is_threat: bool,
    pub threat_type: String,
    pub confidence: u32,
    pub severity: String,
    pub reasons: Vec<String>,
    pub latency_ms: u64,
    pub cached: bool,
}

/// Mathematical model of a response.
pub ghost struct ResponseModel {
    pub is_threat: bool,
    pub threat_type: Seq<char>,
    pub confidence: int,
    pub severity: Seq<char>,
    pub reasons: Seq<Seq<char>>,
    pub latency_ms: int,
    pub cached: bool,
}

impl View for ThreatDetectionResponse {
    type V = ResponseModel;

    open spec fn view(&self) -> ResponseModel {
        ResponseModel {
            is_threat: self.is_threat,
            threat_type: self.threat_type@,
            confidence: self.confidence as int,
            severity: self.severity@,
            reasons: self.reasons.deep_view(),
            latency_ms: self.latency_ms as int,
            cached: self.cached,
        }
    }
}

/// A batch of requests classified together, without touching cache or stats.
pub struct BatchDetectionRequest {
    pub threats: Vec<ThreatDetectionRequest>,
}

/// Results of a batch, in input order, with the wall-clock time of the batch.
pub struct BatchDetectionResponse {
    pub results: Vec<ThreatDetectionResponse>,
    pub total_latency_ms: u64,
}

/// Static liveness snapshot.
pub struct HealthStatus {
    pub status: String,
    pub version: String,
    pub timestamp: String,
}

/// Aggregate counters plus the current cache occupancy and the latency
/// window's sum and length; the mean latency is their quotient.
pub struct Statistics {
    pub total_detections: u64,
    pub threats_detected: u64,
    pub cache_hits: u64,
    pub cache_size: usize,
    pub latency_window_sum: u128,
    pub latency_window_len: usize,
}

} // verus!
