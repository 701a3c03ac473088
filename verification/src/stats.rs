//! Aggregate detection statistics: monotone counters and a bounded window
//! of the most recent latencies.

use vstd::prelude::*;

verus! {

/// How many latency samples the bounded window keeps.
pub const LATENCY_WINDOW: usize = 1000;

/// Running counters and the latency window. Counters only ever grow while
/// the process runs; the window holds at most `LATENCY_WINDOW` samples.
pub struct DetectionStats {
    pub total_detections: u64,
    pub threats_detected: u64,
    pub cache_hits: u64,
    pub latencies: Vec<u64>,
}

/// The window after appending a sample: once it would exceed the bound, the
/// oldest sample leaves.
pub open spec fn push_window(w: Seq<u64>, x: u64) -> Seq<u64> {
    let w2 = w.push(x);
    if w2.len() > LATENCY_WINDOW {
        w2.subrange(1, w2.len() as int)
    } else {
        w2
    }
}

/// The sum of the samples in a window.
pub open spec fn window_sum(w: Seq<u64>) -> int
    decreases w.len(),
{
    if w.len() == 0 {
        0int
    } else {
        window_sum(w.drop_last()) + w.last()
    }
}

/// Appending a sample keeps the window within its bound; a full window
/// drops exactly its oldest sample, a window with room keeps everything.
pub proof fn lemma_push_window(w: Seq<u64>, x: u64)
    requires
        w.len() <= LATENCY_WINDOW,
    ensures
        push_window(w, x).len() <= LATENCY_WINDOW,
        w.len() == LATENCY_WINDOW ==> push_window(w, x) == w.subrange(1, w.len() as int).push(x),
        w.len() < LATENCY_WINDOW ==> push_window(w, x) == w.push(x),
{
    if w.len() == LATENCY_WINDOW {
        assert(w.push(x).subrange(1, w.push(x).len() as int) =~= w.subrange(
            1,
            w.len() as int,
        ).push(x));
    }
}

impl DetectionStats {
    /// Well-formedness: the window never exceeds its bound.
    pub open spec fn wf(&self) -> bool {
        self.latencies@.len() <= LATENCY_WINDOW
    }

    /// Fresh statistics: all counters zero, empty window.
    pub fn new() -> (s: DetectionStats)
        ensures
            s.wf(),
            s.total_detections == 0,
            s.threats_detected == 0,
            s.cache_hits == 0,
            s.latencies@ == Seq::<u64>::empty(),
    {
        DetectionStats {
            total_detections: 0,
            threats_detected: 0,
            cache_hits: 0,
            latencies: Vec::new(),
        }
    }

    /// Counts one cache hit.
    pub fn record_hit(&mut self)
        requires
            old(self).cache_hits < u64::MAX,
        ensures
            final(self).cache_hits == old(self).cache_hits + 1,
            final(self).total_detections == old(self).total_detections,
            final(self).threats_detected == old(self).threats_detected,
            final(self).latencies == old(self).latencies,
    {
        self.cache_hits = self.cache_hits + 1;
    }

    /// Counts one completed detection and appends its latency to the
    /// bounded window.
    pub fn record_detection(&mut self, is_threat: bool, latency_ms: u64)
        requires
            old(self).wf(),
            old(self).total_detections < u64::MAX,
            old(self).threats_detected < u64::MAX,
        ensures
            final(self).wf(),
            final(self).total_detections == old(self).total_detections + 1,
            final(self).threats_detected == old(self).threats_detected + (if is_threat {
                1int
            } else {
                0int
            }),
            final(self).cache_hits == old(self).cache_hits,
            final(self).latencies@ == push_window(old(self).latencies@, latency_ms),
    {
        self.total_detections = self.total_detections + 1;
        if is_threat {
            self.threats_detected = self.threats_detected + 1;
        }
        self.latencies.push(latency_ms);
        if self.latencies.len() > LATENCY_WINDOW {
            let _ = self.latencies.remove(0);
            proof {
                assert(self.latencies@ =~= old(self).latencies@.push(latency_ms).subrange(
                    1,
                    old(self).latencies@.push(latency_ms).len() as int,
                ));
            }
        }
    }

    /// The sum of the samples currently in the window.
    pub fn window_total(&self) -> (t: u128)
        requires
            self.wf(),
        ensures
            t == window_sum(self.latencies@),
    {
        let mut t: u128 = 0;
        let mut i: usize = 0;
        while i < self.latencies.len()
            invariant
                self.wf(),
                i <= self.latencies@.len(),
                t == window_sum(self.latencies@.subrange(0, i as int)),
                t <= i * (u64::MAX as u128),
            decreases self.latencies@.len() - i,
        {
            proof {
                let prefix = self.latencies@.subrange(0, i + 1 as int);
                assert(prefix.drop_last() =~= self.latencies@.subrange(0, i as int));
                assert(prefix.last() == self.latencies@[i as int]);
            }
            t = t + self.latencies[i] as u128;
            i = i + 1;
        }
        proof {
            assert(self.latencies@.subrange(0, self.latencies@.len() as int) =~= self.latencies@);
        }
        t
    }
}

} // verus!
