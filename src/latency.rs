use vstd::prelude::*;
use crate::metrics::{
    LatencyTrend, MetricsCalculator, MetricsCollector, OptimizationSuggestion, ServerMetrics, StreamMetrics,
    server_mean,
};
use crate::table::StreamTable;

verus! {

/// Measurements kept per stream; older ones are dropped first.
pub const MAX_MEASUREMENTS: usize = 100;

/// Measurements needed before a trend is classified.
pub const TREND_SAMPLE: usize = 10;

/// Window, in seconds, of the acceptability check.
pub const ACCEPTABLE_WINDOW_SECONDS: u64 = 10;

/// Window, in seconds, that optimisation hints look at.
pub const SUGGESTION_WINDOW_SECONDS: u64 = 30;

/// One latency sample: when it was taken (milliseconds since the Unix epoch),
/// the latency in milliseconds, and the segment (and part) it was taken on.
#[derive(Clone, Copy, Debug)]
pub struct LatencyMeasurement {
    pub timestamp_ms: i64,
    pub latency_ms: u32,
    pub segment_sequence: u64,
    pub part_sequence: Option<u64>,
}

pub open spec fn latency_sum(s: Seq<LatencyMeasurement>) -> int
    decreases s.len(),
{
    if s.len() == 0 {
        0
    } else {
        latency_sum(s.drop_last()) + s.last().latency_ms
    }
}

/// Compares the mean of the latest five measurements with the mean of the
/// five before them: a rise of more than 10% is `Increasing`, a fall of more
/// than 10% is `Decreasing`. With fewer than ten measurements, or an older
/// mean of zero, the trend is `Stable`.
pub open spec fn trend_spec(s: Seq<LatencyMeasurement>) -> LatencyTrend {
    if s.len() < 10 {
        LatencyTrend::Stable
    } else {
        let recent = latency_sum(s.subrange(s.len() - 5, s.len() as int));
        let older = latency_sum(s.subrange(s.len() - 10, s.len() - 5));
        if older == 0 {
            LatencyTrend::Stable
        } else if 10 * recent > 11 * older {
            LatencyTrend::Increasing
        } else if 10 * recent < 9 * older {
            LatencyTrend::Decreasing
        } else {
            LatencyTrend::Stable
        }
    }
}

/// The hints for a mean latency `avg` against a target: reduce the segment
/// duration above 1.5 times the target, also the part duration above twice
/// it, also enable server push above three times it; then a network check
/// when latency rises, or a note when it falls.
pub open spec fn suggestions_spec(avg: u64, target: u64, trend: LatencyTrend) -> Seq<
    OptimizationSuggestion,
> {
    (if 2 * avg > 3 * target {
        seq![OptimizationSuggestion::ReduceSegmentDuration]
    } else {
        Seq::empty()
    }) + (if avg > 2 * target {
        seq![OptimizationSuggestion::ReducePartDuration]
    } else {
        Seq::empty()
    }) + (if avg > 3 * target {
        seq![OptimizationSuggestion::EnableServerPush]
    } else {
        Seq::empty()
    }) + match trend {
        LatencyTrend::Increasing => seq![OptimizationSuggestion::CheckNetworkConditions],
        LatencyTrend::Decreasing => seq![OptimizationSuggestion::LatencyImproving],
        LatencyTrend::Stable => Seq::empty(),
    }
}

/// The measurements taken after `cutoff`, in order.
pub open spec fn recent_spec(s: Seq<LatencyMeasurement>, cutoff: int) -> Seq<LatencyMeasurement>
    decreases s.len(),
{
    if s.len() == 0 {
        s
    } else if s.last().timestamp_ms > cutoff {
        recent_spec(s.drop_last(), cutoff).push(s.last())
    } else {
        recent_spec(s.drop_last(), cutoff)
    }
}

/// The mean latency of `s`, rounded down; none when `s` is empty.
pub open spec fn average_spec(s: Seq<LatencyMeasurement>) -> Option<u32> {
    if s.len() == 0 {
        None
    } else {
        Some((latency_sum(s) / (s.len() as int)) as u32)
    }
}

/// What a window holds after `m` is added: `m` at the end, and the oldest
/// entry dropped once there are more than `MAX_MEASUREMENTS`.
pub open spec fn window_push(w: Seq<LatencyMeasurement>, m: LatencyMeasurement) -> Seq<
    LatencyMeasurement,
> {
    if w.len() + 1 > MAX_MEASUREMENTS {
        w.push(m).drop_first()
    } else {
        w.push(m)
    }
}

proof fn lemma_sum_bound(s: Seq<LatencyMeasurement>)
    ensures
        0 <= latency_sum(s) <= s.len() * (u32::MAX as int),
    decreases s.len(),
{
    if s.len() > 0 {
        lemma_sum_bound(s.drop_last());
    }
}

proof fn lemma_sum_push(s: Seq<LatencyMeasurement>, m: LatencyMeasurement)
    ensures
        latency_sum(s.push(m)) == latency_sum(s) + m.latency_ms,
{
    assert(s.push(m).drop_last() =~= s);
}

impl MetricsCalculator {
    /// The latency trend of a stream's measurements, oldest first.
    pub fn analyze_latency_trend(measurements: &[LatencyMeasurement]) -> (r: LatencyTrend)
        ensures
            r == trend_spec(measurements@),
    {
        let n = measurements.len();
        if n < TREND_SAMPLE {
            return LatencyTrend::Stable;
        }
        let recent = sum_range(measurements, n - 5, n);
        let older = sum_range(measurements, n - 10, n - 5);
        proof {
            lemma_sum_bound(measurements@.subrange(n - 5, n as int));
            lemma_sum_bound(measurements@.subrange(n - 10, n - 5));
        }
        if older == 0 {
            LatencyTrend::Stable
        } else if 10 * recent > 11 * older {
            LatencyTrend::Increasing
        } else if 10 * recent < 9 * older {
            LatencyTrend::Decreasing
        } else {
            LatencyTrend::Stable
        }
    }

    /// The optimisation hints for a mean latency against the target.
    pub fn generate_optimization_suggestions(
        avg_latency_ms: u64,
        target_latency_ms: u64,
        trend: LatencyTrend,
    ) -> (r: Vec<OptimizationSuggestion>)
        ensures
            r@ == suggestions_spec(avg_latency_ms, target_latency_ms, trend),
    {
        let avg = avg_latency_ms as u128;
        let target = target_latency_ms as u128;
        let mut r: Vec<OptimizationSuggestion> = Vec::new();
        if 2 * avg > 3 * target {
            r.push(OptimizationSuggestion::ReduceSegmentDuration);
        }
        let ghost a = r@;
        if avg > 2 * target {
            r.push(OptimizationSuggestion::ReducePartDuration);
        }
        let ghost b = r@;
        if avg > 3 * target {
            r.push(OptimizationSuggestion::EnableServerPush);
        }
        let ghost c = r@;
        match trend {
            LatencyTrend::Increasing => r.push(OptimizationSuggestion::CheckNetworkConditions),
            LatencyTrend::Decreasing => r.push(OptimizationSuggestion::LatencyImproving),
            LatencyTrend::Stable => {},
        }
        assert(r@ =~= suggestions_spec(avg_latency_ms, target_latency_ms, trend));
        r
    }

    /// The measurements taken within the last `window_seconds` before
    /// `now_ms`, in order.
    pub fn filter_recent_measurements(
        measurements: &[LatencyMeasurement],
        window_seconds: u64,
        now_ms: i64,
    ) -> (r: Vec<LatencyMeasurement>)
        ensures
            r@ == recent_spec(measurements@, now_ms - window_seconds * 1000),
    {
        let cutoff = (now_ms as i128) - (window_seconds as i128) * 1000;
        let mut r: Vec<LatencyMeasurement> = Vec::new();
        let mut i: usize = 0;
        while i < measurements.len()
            invariant
                i <= measurements@.len(),
                cutoff == now_ms - window_seconds * 1000,
                r@ == recent_spec(measurements@.subrange(0, i as int), cutoff as int),
            decreases measurements@.len() - i,
        {
            let ghost pre = measurements@.subrange(0, i as int);
            let ghost next = measurements@.subrange(0, i as int + 1);
            assert(next.drop_last() =~= pre);
            let m = measurements[i];
            if (m.timestamp_ms as i128) > cutoff {
                r.push(m);
            }
            i = i + 1;
        }
        assert(measurements@.subrange(0, measurements@.len() as int) =~= measurements@);
        r
    }

    /// The mean latency of the given measurements, rounded down; none when
    /// there are none.
    pub fn calculate_average_latency(measurements: &[LatencyMeasurement]) -> (r: Option<u32>)
        ensures
            r == average_spec(measurements@),
    {
        let n = measurements.len();
        if n == 0 {
            return None;
        }
        let total = sum_range(measurements, 0, n);
        assert(measurements@.subrange(0, n as int) =~= measurements@);
        proof {
            lemma_sum_bound(measurements@);
            assert(latency_sum(measurements@) / (n as int) <= u32::MAX) by (nonlinear_arith)
                requires
                    latency_sum(measurements@) <= n * (u32::MAX as int),
                    n >= 1,
                    latency_sum(measurements@) >= 0,
            ;
        }
        Some((total / (n as u128)) as u32)
    }
}

fn sum_range(s: &[LatencyMeasurement], lo: usize, hi: usize) -> (r: u128)
    requires
        lo <= hi <= s@.len(),
    ensures
        r == latency_sum(s@.subrange(lo as int, hi as int)),
{
    let mut total: u128 = 0;
    let mut i: usize = lo;
    while i < hi
        invariant
            lo <= i <= hi <= s@.len(),
            total == latency_sum(s@.subrange(lo as int, i as int)),
        decreases hi - i,
    {
        proof {
            lemma_sum_push(s@.subrange(lo as int, i as int), s@[i as int]);
            assert(s@.subrange(lo as int, i as int).push(s@[i as int]) =~= s@.subrange(
                lo as int,
                i as int + 1,
            ));
            lemma_sum_bound(s@.subrange(lo as int, i as int));
            assert((i - lo) * (u32::MAX as int) <= u64::MAX * (u32::MAX as int)) by (nonlinear_arith)
                requires
                    i - lo <= u64::MAX,
            ;
        }
        total = total + s[i].latency_ms as u128;
        i = i + 1;
    }
    total
}

/// Rolling latency windows of every stream, checked against a target.
pub struct LatencyMonitor {
    pub measurements: StreamTable<Vec<LatencyMeasurement>>,
    pub target_latency_ms: u64,
}

impl LatencyMonitor {
    pub open spec fn windows(&self) -> Map<Seq<char>, Seq<LatencyMeasurement>> {
        self.measurements@.map_values(|v: Vec<LatencyMeasurement>| v@)
    }

    /// The table is consistent and no window exceeds its bound.
    pub open spec fn wf(&self) -> bool {
        &&& self.measurements.wf()
        &&& forall|k: Seq<char>| #[trigger]
            self.measurements@.dom().contains(k) ==> self.measurements@[k]@.len()
                <= MAX_MEASUREMENTS
    }

    pub fn new(target_latency_ms: u64) -> (r: LatencyMonitor)
        ensures
            r.wf(),
            r.windows() == Map::<Seq<char>, Seq<LatencyMeasurement>>::empty(),
            r.target_latency_ms == target_latency_ms,
    {
        let r = LatencyMonitor { measurements: StreamTable::new(), target_latency_ms };
        assert(r.windows() =~= Map::<Seq<char>, Seq<LatencyMeasurement>>::empty());
        r
    }

    /// Adds `m` to the stream's window, dropping the oldest measurement once
    /// the window is full.
    pub fn add_measurement(&mut self, stream_id: &str, m: LatencyMeasurement)
        requires
            old(self).wf(),
        ensures
            final(self).wf(),
            final(self).target_latency_ms == old(self).target_latency_ms,
            final(self).windows() == old(self).windows().insert(
                stream_id@,
                window_push(
                    if old(self).windows().dom().contains(stream_id@) {
                        old(self).windows()[stream_id@]
                    } else {
                        Seq::empty()
                    },
                    m,
                ),
            ),
    {
        let ghost o = self.windows();
        let mut w = match self.measurements.remove(stream_id) {
            Some(w) => w,
            None => Vec::new(),
        };
        let ghost before = w@;
        assert(before == if o.dom().contains(stream_id@) {
            o[stream_id@]
        } else {
            Seq::empty()
        });
        w.push(m);
        if w.len() > MAX_MEASUREMENTS {
            w.remove(0);
            assert(w@ =~= before.push(m).drop_first());
        }
        self.measurements.insert(String::from_str(stream_id), w);
        assert(self.windows() =~= o.insert(stream_id@, window_push(before, m)));
    }

    /// Records the latency of a finished segment, taken at `now_ms`, here and
    /// in the collector.
    pub fn record_segment_latency(
        &mut self,
        collector: &mut MetricsCollector,
        stream_id: &str,
        segment_sequence: u64,
        latency_ms: u32,
        now_ms: i64,
    )
        requires
            old(self).wf(),
            old(collector).wf(),
        ensures
            final(self).wf(),
            final(collector).wf(),
            final(self).windows() == old(self).windows().insert(
                stream_id@,
                window_push(
                    if old(self).windows().dom().contains(stream_id@) {
                        old(self).windows()[stream_id@]
                    } else {
                        Seq::empty()
                    },
                    LatencyMeasurement {
                        timestamp_ms: now_ms,
                        latency_ms,
                        segment_sequence,
                        part_sequence: None,
                    },
                ),
            ),
            final(collector).server.average_latency_ms == server_mean(
                old(collector).server.average_latency_ms,
                old(collector).server.active_streams,
                latency_ms as u64,
            ),
            final(collector).metrics().dom() == old(collector).metrics().dom(),
old(collector).metrics().dom().contains(stream_id@) ==> final(collector).metrics()[stream_id@]
                == (StreamMetrics { latency_ms, ..old(collector).metrics()[stream_id@] }),
            forall|k: Seq<char>|
                k != stream_id@ && old(collector).metrics().dom().contains(k) ==> final(collector).metrics()[k]
                    == old(collector).metrics()[k],
            final(collector).server == (ServerMetrics {
                average_latency_ms: final(collector).server.average_latency_ms,
                ..old(collector).server
            }),
    {
        let m = LatencyMeasurement {
            timestamp_ms: now_ms,
            latency_ms,
            segment_sequence,
            part_sequence: None,
        };
        self.add_measurement(stream_id, m);
        collector.record_latency(stream_id, latency_ms);
    }

    /// Records the latency of a finished part, taken at `now_ms`.
    pub fn record_part_latency(
        &mut self,
        stream_id: &str,
        segment_sequence: u64,
        part_sequence: u64,
        latency_ms: u32,
        now_ms: i64,
    )
        requires
            old(self).wf(),
        ensures
            final(self).wf(),
            final(self).windows() == old(self).windows().insert(
                stream_id@,
                window_push(
                    if old(self).windows().dom().contains(stream_id@) {
                        old(self).windows()[stream_id@]
                    } else {
                        Seq::empty()
                    },
                    LatencyMeasurement {
                        timestamp_ms: now_ms,
                        latency_ms,
                        segment_sequence,
                        part_sequence: Some(part_sequence),
                    },
                ),
            ),
    {
        let m = LatencyMeasurement {
            timestamp_ms: now_ms,
            latency_ms,
            segment_sequence,
            part_sequence: Some(part_sequence),
        };
        self.add_measurement(stream_id, m);
    }

    /// The mean latency of the stream's measurements taken within the last
    /// `window_seconds` before `now_ms`; none when there are none.
    pub fn get_average_latency(&self, stream_id: &str, window_seconds: u64, now_ms: i64) -> (r:
        Option<u32>)
        requires
            self.wf(),
        ensures
            r == (if self.windows().dom().contains(stream_id@) {
                average_spec(
                    recent_spec(self.windows()[stream_id@], now_ms - window_seconds * 1000),
                )
            } else {
                None
            }),
    {
        match self.measurements.get(stream_id) {
            Some(w) => {
                let recent = MetricsCalculator::filter_recent_measurements(
                    w.as_slice(),
                    window_seconds,
                    now_ms,
                );
                MetricsCalculator::calculate_average_latency(recent.as_slice())
            },
            None => None,
        }
    }

    /// Whether the mean latency of the last ten seconds is within the target;
    /// a stream with no recent measurement is within it.
    pub fn is_latency_acceptable(&self, stream_id: &str, now_ms: i64) -> (r: bool)
        requires
            self.wf(),
        ensures
            r == match (if self.windows().dom().contains(stream_id@) {
                average_spec(recent_spec(self.windows()[stream_id@], now_ms - 10000))
            } else {
                None
            }) {
                Some(avg) => avg <= self.target_latency_ms,
                None => true,
            },
    {
        match self.get_average_latency(stream_id, ACCEPTABLE_WINDOW_SECONDS, now_ms) {
            Some(avg) => avg as u64 <= self.target_latency_ms,
            None => true,
        }
    }

    /// The trend of the stream's window.
    pub fn get_latency_trend(&self, stream_id: &str) -> (r: LatencyTrend)
        requires
            self.wf(),
        ensures
            r == (if self.windows().dom().contains(stream_id@) {
                trend_spec(self.windows()[stream_id@])
            } else {
                LatencyTrend::Stable
            }),
    {
        match self.measurements.get(stream_id) {
            Some(w) => MetricsCalculator::analyze_latency_trend(w.as_slice()),
            None => LatencyTrend::Stable,
        }
    }

    /// Hints from the mean latency of the last thirty seconds and the trend;
    /// none when there is no recent measurement.
    pub fn get_optimization_suggestions(&self, stream_id: &str, now_ms: i64) -> (r: Vec<
        OptimizationSuggestion,
    >)
        requires
            self.wf(),
        ensures
            r@ == match (if self.windows().dom().contains(stream_id@) {
                average_spec(recent_spec(self.windows()[stream_id@], now_ms - 30000))
            } else {
                None
            }) {
                Some(avg) => suggestions_spec(
                    avg as u64,
                    self.target_latency_ms,
                    if self.windows().dom().contains(stream_id@) {
                        trend_spec(self.windows()[stream_id@])
                    } else {
                        LatencyTrend::Stable
                    },
                ),
                None => Seq::empty(),
            },
    {
        match self.get_average_latency(stream_id, SUGGESTION_WINDOW_SECONDS, now_ms) {
            Some(avg) => {
                let trend = self.get_latency_trend(stream_id);
                MetricsCalculator::generate_optimization_suggestions(
                    avg as u64,
                    self.target_latency_ms,
                    trend,
                )
            },
            None => Vec::new(),
        }
    }

    /// Forgets a stream's measurements.
    pub fn remove_stream_measurements(&mut self, stream_id: &str)
        requires
            old(self).wf(),
        ensures
            final(self).wf(),
            final(self).windows() == old(self).windows().remove(stream_id@),
    {
        let ghost o = self.windows();
        let _ = self.measurements.remove(stream_id);
        assert(self.windows() =~= o.remove(stream_id@));
    }
}

/// Latency trend classification: when the last ten measurements are all
/// equal the trend is `Stable`; when the mean of the latest five is at least
/// 20% above the mean of the five before them it is `Increasing`, and when it
/// is at least 20% below it is `Decreasing`.
pub proof fn lemma_trend_classification(s: Seq<LatencyMeasurement>)
    requires
        s.len() >= 10,
    ensures
        (forall|i: int| s.len() - 10 <= i < s.len() ==> #[trigger] s[i].latency_ms == s[s.len()
            - 1].latency_ms) ==> trend_spec(s) == LatencyTrend::Stable,
        ({
            let older = latency_sum(s.subrange(s.len() - 10, s.len() - 5));
            let recent = latency_sum(s.subrange(s.len() - 5, s.len() as int));
            older > 0 && 5 * recent >= 6 * older
        }) ==> trend_spec(s) == LatencyTrend::Increasing,
        ({
            let older = latency_sum(s.subrange(s.len() - 10, s.len() - 5));
            let recent = latency_sum(s.subrange(s.len() - 5, s.len() as int));
            older > 0 && 5 * recent <= 4 * older
        }) ==> trend_spec(s) == LatencyTrend::Decreasing,
{
    let n = s.len() as int;
    let older = s.subrange(n - 10, n - 5);
    let recent = s.subrange(n - 5, n);
    if forall|i: int| n - 10 <= i < n ==> #[trigger] s[i].latency_ms == s[n - 1].latency_ms {
        lemma_sum_five(older);
        lemma_sum_five(recent);
        assert(older[0] == s[n - 10] && older[1] == s[n - 9] && older[2] == s[n - 8]
            && older[3] == s[n - 7] && older[4] == s[n - 6]);
        assert(recent[0] == s[n - 5] && recent[1] == s[n - 4] && recent[2] == s[n - 3]
            && recent[3] == s[n - 2] && recent[4] == s[n - 1]);
        assert(latency_sum(older) == latency_sum(recent));
    }
}

proof fn lemma_sum_five(s: Seq<LatencyMeasurement>)
    requires
        s.len() == 5,
    ensures
        latency_sum(s) == s[0].latency_ms + s[1].latency_ms + s[2].latency_ms + s[3].latency_ms
            + s[4].latency_ms,
{
    reveal_with_fuel(latency_sum, 6);
    assert(s.drop_last().drop_last().drop_last().drop_last().drop_last().len() == 0);
}

} // verus!
