//! The dispatcher: orchestrates one classification — derive the cache key,
//! consult the cache, classify on a miss, then update cache and statistics —
//! plus the uncached batch path and the read-only snapshots.
//!
//! Its whole effect on the shared state is captured by the spec transition
//! [`step`], over which the idempotence, monotonicity and window laws are
//! proved.

use vstd::prelude::*;

use crate::cache::{
    has_key, put_spec, stored_view, unique_keys, value_of, CacheEntry, ResultCache, StoredValue,
    StoredView,
};
use crate::classify::{classify_model, classify_request, lemma_confidence_bounds_and_reasons};
use crate::keyhash::{cache_key, compute_cache_key};
use crate::stats::{push_window, window_sum, DetectionStats, LATENCY_WINDOW};
use crate::{
    BatchDetectionRequest, BatchDetectionResponse, HealthStatus, RequestModel, ResponseModel,
    Statistics, ThreatDetectionRequest, ThreatDetectionResponse,
};

verus! {

/// The cache capacity used when none is configured.
pub const DEFAULT_CACHE_CAPACITY: usize = 10000;

/// The mathematical model of the whole shared state.
pub ghost struct StateModel {
    pub entries: Seq<CacheEntry>,
    pub capacity: nat,
    pub total_detections: nat,
    pub threats_detected: nat,
    pub cache_hits: nat,
    pub latencies: Seq<u64>,
}

/// The response built from a cache entry's stored fields.
pub open spec fn response_from_stored(v: StoredView, latency_ms: u64, cached: bool) -> ResponseModel {
    ResponseModel {
        is_threat: v.0,
        threat_type: v.1,
        confidence: v.2 as int,
        severity: v.3,
        reasons: v.4,
        latency_ms: latency_ms as int,
        cached,
    }
}

/// The fields of a response that the cache keeps.
pub open spec fn stored_of(m: ResponseModel) -> StoredView {
    (m.is_threat, m.threat_type, m.confidence as u32, m.severity, m.reasons)
}

/// One single-item classification as a state transition: on a hit the
/// stored result is returned (marked cached, latency restamped) and the hit
/// counter grows; on a miss the request is classified, the counters and the
/// latency window are updated, and the result is cached.
pub open spec fn step(s: StateModel, req: RequestModel, elapsed_ms: u64) -> (StateModel, ResponseModel) {
    let key = cache_key(req.threat_type, req.content, req.context);
    if has_key(s.entries, key) {
        (
            StateModel { cache_hits: s.cache_hits + 1, ..s },
            response_from_stored(value_of(s.entries, key), elapsed_ms, true),
        )
    } else {
        let m = classify_model(req);
        (
            StateModel {
                entries: put_spec(s.entries, s.capacity, key, stored_of(m)),
                total_detections: s.total_detections + 1,
                threats_detected: s.threats_detected + (if m.is_threat {
                    1nat
                } else {
                    0nat
                }),
                latencies: push_window(s.latencies, elapsed_ms),
                ..s
            },
            ResponseModel { latency_ms: elapsed_ms as int, cached: false, ..m },
        )
    }
}

/// The shared state of the service: the result cache and the statistics.
/// Concurrent adapters share one instance behind their own locking.
pub struct AppState {
    cache: ResultCache,
    stats: DetectionStats,
}

impl AppState {
    /// The model of the current state.
    pub closed spec fn model(&self) -> StateModel {
        StateModel {
            entries: self.cache.entries(),
            capacity: self.cache.capacity(),
            total_detections: self.stats.total_detections as nat,
            threats_detected: self.stats.threats_detected as nat,
            cache_hits: self.stats.cache_hits as nat,
            latencies: self.stats.latencies@,
        }
    }

    /// Well-formedness of cache and statistics.
    pub closed spec fn wf(&self) -> bool {
        self.cache.wf() && self.stats.wf()
    }

    /// A fresh state: an empty cache of the given capacity and zeroed
    /// statistics.
    pub fn new(cache_capacity: usize) -> (s: AppState)
        requires
            1 <= cache_capacity,
        ensures
            s.wf(),
            s.model().entries == Seq::<CacheEntry>::empty(),
            s.model().capacity == cache_capacity as nat,
            s.model().total_detections == 0,
            s.model().threats_detected == 0,
            s.model().cache_hits == 0,
            s.model().latencies == Seq::<u64>::empty(),
    {
        AppState { cache: ResultCache::new(cache_capacity), stats: DetectionStats::new() }
    }

    /// Classifies one request with caching and statistics, as [`step`]
    /// describes. `elapsed_ms` is the wall-clock time the adapter measured
    /// for this dispatch.
    pub fn detect_threat(&mut self, req: &ThreatDetectionRequest, elapsed_ms: u64) -> (r: ThreatDetectionResponse)
        requires
            old(self).wf(),
            old(self).model().total_detections < u64::MAX,
            old(self).model().threats_detected < u64::MAX,
            old(self).model().cache_hits < u64::MAX,
        ensures
            final(self).wf(),
            final(self).model() == step(old(self).model(), req@, elapsed_ms).0,
            r@ == step(old(self).model(), req@, elapsed_ms).1,
    {
        let key = compute_cache_key(&req.threat_type, &req.content, &req.context);
        let found = self.cache.lookup(&key);
        match found {
            Some(v) => {
                let threat_type = v.1.clone();
                let severity = v.3.clone();
                let reasons = v.4.clone();
                proof {
                    assert(reasons@ =~= v.4@) by {
                        assert forall|i: int| 0 <= i < v.4@.len() implies reasons@[i] == v.4@[i] by {
                            assert(vstd::pervasive::cloned::<String>(v.4[i], reasons[i]));
                        }
                    }
                    assert(reasons.deep_view() =~= v.4.deep_view());
                }
                let response = ThreatDetectionResponse {
                    is_threat: v.0,
                    threat_type,
                    confidence: v.2,
                    severity,
                    reasons,
                    latency_ms: elapsed_ms,
                    cached: true,
                };
                self.stats.record_hit();
                return response;
            },
            None => {},
        }
        let result = classify_request(req);
        self.stats.record_detection(result.is_threat, elapsed_ms);
        let stored: StoredValue = (
            result.is_threat,
            result.threat_type.clone(),
            result.confidence,
            result.severity.clone(),
            result.reasons.clone(),
        );
        proof {
            assert(stored.4@ =~= result.reasons@) by {
                assert forall|i: int|
                    0 <= i < result.reasons@.len() implies stored.4@[i] == result.reasons@[i] by {
                    assert(vstd::pervasive::cloned::<String>(result.reasons[i], stored.4[i]));
                }
            }
            assert(stored.4.deep_view() =~= result.reasons.deep_view());
            assert(stored_view(stored) == stored_of(classify_model(req@)));
        }
        self.cache.insert(key, stored);
        let r = ThreatDetectionResponse { latency_ms: elapsed_ms, cached: false, ..result };
        r
    }

    /// A read-only snapshot of the counters, the cache occupancy, and the
    /// latency window's sum and length.
    pub fn get_statistics(&self) -> (s: Statistics)
        requires
            self.wf(),
        ensures
            s.total_detections == self.model().total_detections,
            s.threats_detected == self.model().threats_detected,
            s.cache_hits == self.model().cache_hits,
            s.cache_size == self.model().entries.len(),
            s.latency_window_sum == window_sum(self.model().latencies),
            s.latency_window_len == self.model().latencies.len(),
    {
        Statistics {
            total_detections: self.stats.total_detections,
            threats_detected: self.stats.threats_detected,
            cache_hits: self.stats.cache_hits,
            cache_size: self.cache.len(),
            latency_window_sum: self.stats.window_total(),
            latency_window_len: self.stats.latencies.len(),
        }
    }
}

/// Classifies a batch of requests in input order, without touching any
/// shared state: no cache probe, no cache insert, no statistics update.
/// `total_elapsed_ms` is the adapter-measured wall-clock time of the batch.
pub fn detect_batch(req: &BatchDetectionRequest, total_elapsed_ms: u64) -> (resp: BatchDetectionResponse)
    ensures
        resp.results@.len() == req.threats@.len(),
        forall|i: int|
            0 <= i < resp.results@.len() ==> (#[trigger] resp.results@[i])@ == classify_model(
                req.threats@[i]@,
            ),
        resp.total_latency_ms == total_elapsed_ms,
{
    let mut results: Vec<ThreatDetectionResponse> = Vec::new();
    let mut i: usize = 0;
    while i < req.threats.len()
        invariant
            i <= req.threats@.len(),
            results@.len() == i,
            forall|j: int|
                0 <= j < i ==> (#[trigger] results@[j])@ == classify_model(req.threats@[j]@),
        decreases req.threats@.len() - i,
    {
        let r = classify_request(&req.threats[i]);
        results.push(r);
        i = i + 1;
    }
    BatchDetectionResponse { results, total_latency_ms: total_elapsed_ms }
}

/// Relies on chrono::Local::now and DateTime::to_rfc3339 for the current
/// wall-clock timestamp; nothing is assumed about its value.
#[verifier::external_body]
fn now_rfc3339() -> (r: String) {
    chrono::Local::now().to_rfc3339()
}

/// A static liveness snapshot with the current timestamp.
pub fn health() -> (h: HealthStatus)
    ensures
        h.status@ == "healthy"@,
        h.version@ == "1.0.0"@,
{
    HealthStatus {
        status: "healthy".to_owned(),
        version: "1.0.0".to_owned(),
        timestamp: now_rfc3339(),
    }
}

/// Classifying the same request twice in a row gives the same threat
/// verdict, label, confidence, severity and reasons; the second call is
/// served from the cache.
pub proof fn lemma_classify_idempotent(s: StateModel, req: RequestModel, e1: u64, e2: u64)
    requires
        1 <= s.capacity,
        s.entries.len() <= s.capacity,
        unique_keys(s.entries),
    ensures
        ({
            let (s1, r1) = step(s, req, e1);
            let (s2, r2) = step(s1, req, e2);
            r2.is_threat == r1.is_threat && r2.threat_type == r1.threat_type && r2.confidence
                == r1.confidence && r2.severity == r1.severity && r2.reasons == r1.reasons
                && r2.cached && r1.latency_ms == e1 as int && r2.latency_ms == e2 as int
        }),
{
    let key = cache_key(req.threat_type, req.content, req.context);
    if !has_key(s.entries, key) {
        let m = classify_model(req);
        lemma_confidence_bounds_and_reasons(req);
        crate::cache::lemma_put_spec_properties(s.entries, s.capacity, key, stored_of(m));
        assert(value_of(put_spec(s.entries, s.capacity, key, stored_of(m)), key) == stored_of(m));
    }
}

/// Across any single classification the total and threat counters never
/// decrease; iterating this over a call sequence keeps them non-decreasing
/// throughout. The batch path takes no state at all, so it leaves every
/// counter untouched by construction.
pub proof fn lemma_stats_monotonic(s: StateModel, req: RequestModel, e: u64)
    ensures
        step(s, req, e).0.total_detections >= s.total_detections,
        step(s, req, e).0.threats_detected >= s.threats_detected,
        step(s, req, e).0.cache_hits >= s.cache_hits,
{
}

/// The latency window only ever holds the most recent samples: a
/// classification never grows it beyond its bound, and once full, each
/// recorded sample pushes out exactly the oldest one.
pub proof fn lemma_latency_window(s: StateModel, req: RequestModel, e: u64)
    requires
        s.latencies.len() <= LATENCY_WINDOW,
    ensures
        step(s, req, e).0.latencies.len() <= LATENCY_WINDOW,
        ({
            let key = cache_key(req.threat_type, req.content, req.context);
            !has_key(s.entries, key) && s.latencies.len() == LATENCY_WINDOW
                ==> step(s, req, e).0.latencies == s.latencies.subrange(
                1,
                s.latencies.len() as int,
            ).push(e)
        }),
{
    crate::stats::lemma_push_window(s.latencies, e);
}

} // verus!
