use vstd::prelude::*;
use crate::table::StreamTable;

verus! {

/// `a + b`, held at `u64::MAX`.
pub open spec fn sat_add_spec(a: u64, b: u64) -> u64 {
    if a + b <= u64::MAX {
        (a + b) as u64
    } else {
        u64::MAX
    }
}

pub fn sat_add(a: u64, b: u64) -> (r: u64)
    ensures
        r == sat_add_spec(a, b),
        r >= a,
{
    if a <= u64::MAX - b {
        a + b
    } else {
        u64::MAX
    }
}

/// The running mean after the `n`-th value `x`: `(avg * (n - 1) + x) / n`,
/// rounded down; the first value is its own mean.
pub open spec fn running_mean(avg: u64, n: u64, x: u64) -> int {
    if n == 0 {
        x as int
    } else {
        (avg * (n - 1) + x) / (n as int)
    }
}

/// Bits per second over the time from the stream's start to its last
/// segment; 0 when no positive time has passed. Held at `u32::MAX`.
pub open spec fn bitrate_spec(total_bytes: u64, start_ms: i64, last_ms: Option<i64>) -> u32 {
    match last_ms {
        Some(l) => if l - start_ms > 0 {
            let b = (total_bytes * 8000) / (l - start_ms);
            if b <= u32::MAX {
                b as u32
            } else {
                u32::MAX
            }
        } else {
            0
        },
        None => 0,
    }
}

/// The server-wide mean latency after one more value from one of `active`
/// streams: `(avg * active + new) / (active + 1)`, rounded down.
pub open spec fn server_mean(avg: u64, active: u32, new: u64) -> int {
    if active == 0 {
        new as int
    } else {
        (avg * active + new) / (active + 1)
    }
}

proof fn lemma_mean_bound(avg: u64, n: u64, x: u64)
    requires
        n >= 1,
    ensures
        0 <= running_mean(avg, n, x) <= u64::MAX,
        avg * (n - 1) + x <= u128::MAX,
{
    let m = u64::MAX as int;
    assert(avg * (n - 1) + x <= m * n) by (nonlinear_arith)
        requires
            avg <= m,
            x <= m,
            n >= 1,
    ;
    assert((avg * (n - 1) + x) / (n as int) <= m) by (nonlinear_arith)
        requires
            avg * (n - 1) + x <= m * n,
            n >= 1,
            avg * (n - 1) + x >= 0,
    ;
    assert(0 <= (avg * (n - 1) + x) / (n as int)) by (nonlinear_arith)
        requires
            avg * (n - 1) + x >= 0,
            n >= 1,
    ;
    assert(m * n <= u128::MAX) by (nonlinear_arith)
        requires
            n <= m,
            m == u64::MAX,
    ;
}

/// Which way a stream's latency is heading.
#[derive(Clone, Copy, PartialEq, Eq, Structural, Debug)]
pub enum LatencyTrend {
    Increasing,
    Decreasing,
    Stable,
}

/// A hint for bringing latency down.
#[derive(Clone, Copy, PartialEq, Eq, Structural, Debug)]
pub enum OptimizationSuggestion {
    ReduceSegmentDuration,
    ReducePartDuration,
    EnableServerPush,
    CheckNetworkConditions,
    LatencyImproving,
}

impl OptimizationSuggestion {
    /// A sentence for operators.
    pub fn message(&self) -> (r: String)
        ensures
            r@ == match *self {
                OptimizationSuggestion::ReduceSegmentDuration => "consider reducing the segment duration"@,
                OptimizationSuggestion::ReducePartDuration => "consider reducing the part duration"@,
                OptimizationSuggestion::EnableServerPush => "consider enabling server push"@,
                OptimizationSuggestion::CheckNetworkConditions => "check the network conditions"@,
                OptimizationSuggestion::LatencyImproving => "latency is improving"@,
            },
    {
        match self {
            OptimizationSuggestion::ReduceSegmentDuration => String::from_str(
                "consider reducing the segment duration",
            ),
            OptimizationSuggestion::ReducePartDuration => String::from_str(
                "consider reducing the part duration",
            ),
            OptimizationSuggestion::EnableServerPush => String::from_str(
                "consider enabling server push",
            ),
            OptimizationSuggestion::CheckNetworkConditions => String::from_str(
                "check the network conditions",
            ),
            OptimizationSuggestion::LatencyImproving => String::from_str("latency is improving"),
        }
    }
}

/// Counters and averages of one stream. Times are milliseconds since the
/// Unix epoch; durations are milliseconds.
pub struct StreamMetrics {
    pub stream_id: String,
    pub start_time_ms: i64,
    pub total_segments: u64,
    pub total_parts: u64,
    pub average_segment_duration_ms: u64,
    pub average_part_duration_ms: u64,
    pub total_bytes: u64,
    pub current_bitrate: u32,
    pub dropped_segments: u64,
    pub last_segment_time_ms: Option<i64>,
    pub latency_ms: u32,
}

/// Server-wide counters.
pub struct ServerMetrics {
    pub active_streams: u32,
    pub total_connections: u64,
    pub total_bytes_served: u64,
    pub average_latency_ms: u64,
    pub uptime_seconds: u64,
    pub start_time_ms: i64,
}

impl StreamMetrics {
    /// Zeroed counters of a stream that starts at `now_ms`.
    pub fn start(stream_id: String, now_ms: i64) -> (r: StreamMetrics)
        ensures
            r.stream_id == stream_id,
            r.start_time_ms == now_ms,
            r.total_segments == 0,
            r.total_parts == 0,
            r.average_segment_duration_ms == 0,
            r.average_part_duration_ms == 0,
            r.total_bytes == 0,
            r.current_bitrate == 0,
            r.dropped_segments == 0,
            r.last_segment_time_ms.is_none(),
            r.latency_ms == 0,
    {
        StreamMetrics {
            stream_id,
            start_time_ms: now_ms,
            total_segments: 0,
            total_parts: 0,
            average_segment_duration_ms: 0,
            average_part_duration_ms: 0,
            total_bytes: 0,
            current_bitrate: 0,
            dropped_segments: 0,
            last_segment_time_ms: None,
            latency_ms: 0,
        }
    }

    pub open spec fn same_as(&self, o: &StreamMetrics) -> bool {
        &&& self.stream_id@ == o.stream_id@
        &&& self.start_time_ms == o.start_time_ms
        &&& self.total_segments == o.total_segments
        &&& self.total_parts == o.total_parts
        &&& self.average_segment_duration_ms == o.average_segment_duration_ms
        &&& self.average_part_duration_ms == o.average_part_duration_ms
        &&& self.total_bytes == o.total_bytes
        &&& self.current_bitrate == o.current_bitrate
        &&& self.dropped_segments == o.dropped_segments
        &&& self.last_segment_time_ms == o.last_segment_time_ms
        &&& self.latency_ms == o.latency_ms
    }

    /// A copy of these metrics.
    pub fn snapshot(&self) -> (r: StreamMetrics)
        ensures
            r.same_as(self),
    {
        StreamMetrics {
            stream_id: self.stream_id.clone(),
            start_time_ms: self.start_time_ms,
            total_segments: self.total_segments,
            total_parts: self.total_parts,
            average_segment_duration_ms: self.average_segment_duration_ms,
            average_part_duration_ms: self.average_part_duration_ms,
            total_bytes: self.total_bytes,
            current_bitrate: self.current_bitrate,
            dropped_segments: self.dropped_segments,
            last_segment_time_ms: self.last_segment_time_ms,
            latency_ms: self.latency_ms,
        }
    }
}

impl ServerMetrics {
    pub fn snapshot(&self) -> (r: ServerMetrics)
        ensures
            r == *self,
    {
        ServerMetrics {
            active_streams: self.active_streams,
            total_connections: self.total_connections,
            total_bytes_served: self.total_bytes_served,
            average_latency_ms: self.average_latency_ms,
            uptime_seconds: self.uptime_seconds,
            start_time_ms: self.start_time_ms,
        }
    }
}

/// The arithmetic of the metrics.
pub struct MetricsCalculator;

impl MetricsCalculator {
    /// The mean segment duration once the `total_segments`-th segment, of
    /// `new_duration_ms`, has been counted.
    pub fn calculate_average_segment_duration(
        current_avg_ms: u64,
        total_segments: u64,
        new_duration_ms: u64,
    ) -> (r: u64)
        ensures
            r == running_mean(current_avg_ms, total_segments, new_duration_ms),
    {
        Self::running_mean(current_avg_ms, total_segments, new_duration_ms)
    }

    /// The mean part duration once the `total_parts`-th part, of
    /// `new_duration_ms`, has been counted.
    pub fn calculate_average_part_duration(
        current_avg_ms: u64,
        total_parts: u64,
        new_duration_ms: u64,
    ) -> (r: u64)
        ensures
            r == running_mean(current_avg_ms, total_parts, new_duration_ms),
    {
        Self::running_mean(current_avg_ms, total_parts, new_duration_ms)
    }

    fn running_mean(avg: u64, n: u64, x: u64) -> (r: u64)
        ensures
            r == running_mean(avg, n, x),
    {
        if n == 0 {
            x
        } else {
            proof {
                lemma_mean_bound(avg, n, x);
            }
            let total = (avg as u128) * ((n - 1) as u128) + (x as u128);
            (total / (n as u128)) as u64
        }
    }

    /// Bits per second from the stream's start to its last segment.
    pub fn calculate_current_bitrate(total_bytes: u64, start_time_ms: i64, last_segment_time_ms: Option<
        i64,
    >) -> (r: u32)
        ensures
            r == bitrate_spec(total_bytes, start_time_ms, last_segment_time_ms),
    {
        match last_segment_time_ms {
            Some(last) => {
                let elapsed = (last as i128) - (start_time_ms as i128);
                if elapsed > 0 {
                    let bits = (total_bytes as u128) * 8000;
                    let b = bits / (elapsed as u128);
                    if b <= u32::MAX as u128 {
                        b as u32
                    } else {
                        u32::MAX
                    }
                } else {
                    0
                }
            },
            None => 0,
        }
    }

    /// The server-wide mean latency after one more value.
    pub fn calculate_server_average_latency(current_avg_ms: u64, active_streams: u32, new_latency_ms: u64) -> (r: u64)
        ensures
            r == server_mean(current_avg_ms, active_streams, new_latency_ms),
    {
        if active_streams == 0 {
            new_latency_ms
        } else {
            let ghost m = u64::MAX as int;
            let a = active_streams as u128;
            assert(current_avg_ms * a + new_latency_ms <= m * (a + 1)) by (nonlinear_arith)
                requires
                    current_avg_ms <= m,
                    new_latency_ms <= m,
                    a >= 1,
            ;
            assert(m * (a + 1) <= u128::MAX) by (nonlinear_arith)
                requires
                    a <= u32::MAX,
                    m == u64::MAX,
            ;
            let total = (current_avg_ms as u128) * a + (new_latency_ms as u128);
            assert((total as int) / ((a + 1) as int) <= m) by (nonlinear_arith)
                requires
                    total <= m * (a + 1),
                    a >= 1,
            ;
            (total / (a + 1)) as u64
        }
    }
}

/// Per-stream metrics and the server-wide counters.
pub struct MetricsCollector {
    pub streams: StreamTable<StreamMetrics>,
    pub server: ServerMetrics,
}

impl MetricsCollector {
    /// The table is consistent and the active-stream count is its size.
    pub open spec fn wf(&self) -> bool {
        &&& self.streams.wf()
        &&& self.server.active_streams == self.streams@.dom().len()
        &&& forall|k: Seq<char>| #[trigger]
            self.streams@.dom().contains(k) ==> self.streams@[k].stream_id@ == k
    }

    pub open spec fn metrics(&self) -> Map<Seq<char>, StreamMetrics> {
        self.streams@
    }

    /// An empty collector for a server started at `now_ms`.
    pub fn new(now_ms: i64) -> (r: MetricsCollector)
        ensures
            r.wf(),
            r.metrics() == Map::<Seq<char>, StreamMetrics>::empty(),
            r.server.start_time_ms == now_ms,
            r.server.total_connections == 0,
            r.server.total_bytes_served == 0,
            r.server.average_latency_ms == 0,
    {
        let streams = StreamTable::new();
        MetricsCollector {
            streams,
            server: ServerMetrics {
                active_streams: 0,
                total_connections: 0,
                total_bytes_served: 0,
                average_latency_ms: 0,
                uptime_seconds: 0,
                start_time_ms: now_ms,
            },
        }
    }

    /// Starts zeroed metrics for a stream that began at `now_ms` and counts
    /// one more connection. A stream that already had metrics starts over.
    pub fn create_stream_metrics(&mut self, stream_id: String, now_ms: i64)
        requires
            old(self).wf(),
            old(self).server.active_streams < u32::MAX,
        ensures
            final(self).wf(),
            final(self).metrics().dom() == old(self).metrics().dom().insert(stream_id@),
            ({
                let m = final(self).metrics()[stream_id@];
                &&& m.stream_id@ == stream_id@
                &&& m.start_time_ms == now_ms
                &&& m.total_segments == 0
                &&& m.total_parts == 0
                &&& m.average_segment_duration_ms == 0
                &&& m.average_part_duration_ms == 0
                &&& m.total_bytes == 0
                &&& m.current_bitrate == 0
                &&& m.dropped_segments == 0
                &&& m.last_segment_time_ms.is_none()
                &&& m.latency_ms == 0
            }),
            forall|k: Seq<char>|
                k != stream_id@ && old(self).metrics().dom().contains(k) ==> final(self).metrics()[k] == old(self).metrics()[k],
            final(self).server.total_connections == sat_add_spec(
                old(self).server.total_connections,
                1,
            ),
            final(self).server.start_time_ms == old(self).server.start_time_ms,
    {
        let ghost old_dom = self.streams@.dom();
        proof {
            self.streams.lemma_dom_len();
        }
        let had = self.streams.contains_key(stream_id.as_str());
        let key = stream_id.clone();
        let m = StreamMetrics::start(stream_id, now_ms);
        self.streams.insert(key, m);
        proof {
            if !had {
                assert(self.streams@.dom() =~= old_dom.insert(key@));
            } else {
                assert(self.streams@.dom() =~= old_dom);
            }
        }
        if !had {
            self.server.active_streams = self.server.active_streams + 1;
        }
        self.server.total_connections = sat_add(self.server.total_connections, 1);
    }

    /// Counts a finished segment of `duration_ms` and `size` bytes, produced at
    /// `now_ms`, and refreshes the stream's mean duration and bitrate. An
    /// unknown stream is ignored.
    pub fn record_segment(&mut self, stream_id: &str, duration_ms: u64, size: u64, now_ms: i64)
        requires
            old(self).wf(),
        ensures
            final(self).wf(),
            final(self).server == old(self).server,
            final(self).metrics().dom() == old(self).metrics().dom(),
            forall|k: Seq<char>|
                k != stream_id@ && old(self).metrics().dom().contains(k) ==> final(self).metrics()[k] == old(self).metrics()[k],
            old(self).metrics().dom().contains(stream_id@) ==> {
                let o = old(self).metrics()[stream_id@];
                let f = final(self).metrics()[stream_id@];
                &&& f.total_segments == sat_add_spec(o.total_segments, 1)
                &&& f.total_bytes == sat_add_spec(o.total_bytes, size)
                &&& f.last_segment_time_ms == Some(now_ms)
                &&& f.average_segment_duration_ms == running_mean(
                    o.average_segment_duration_ms,
                    f.total_segments,
                    duration_ms,
                )
                &&& f.current_bitrate == bitrate_spec(f.total_bytes, o.start_time_ms, Some(now_ms))
                &&& f.stream_id == o.stream_id
                &&& f.start_time_ms == o.start_time_ms
                &&& f.total_parts == o.total_parts
                &&& f.average_part_duration_ms == o.average_part_duration_ms
                &&& f.dropped_segments == o.dropped_segments
                &&& f.latency_ms == o.latency_ms
            },
    {
        let ghost old_map = self.streams@;
        match self.streams.remove(stream_id) {
            Some(mut m) => {
                m.total_segments = sat_add(m.total_segments, 1);
                m.total_bytes = sat_add(m.total_bytes, size);
                m.last_segment_time_ms = Some(now_ms);
                m.average_segment_duration_ms = MetricsCalculator::calculate_average_segment_duration(
                    m.average_segment_duration_ms,
                    m.total_segments,
                    duration_ms,
                );
                m.current_bitrate = MetricsCalculator::calculate_current_bitrate(
                    m.total_bytes,
                    m.start_time_ms,
                    m.last_segment_time_ms,
                );
                self.streams.insert(String::from_str(stream_id), m);
                assert(self.streams@.dom() =~= old_map.dom());
            },
            None => {
                assert(self.streams@ =~= old_map);
            },
        }
    }

    /// Counts a finished part of `duration_ms` and refreshes the mean part
    /// duration. An unknown stream is ignored.
    pub fn record_part(&mut self, stream_id: &str, duration_ms: u64)
        requires
            old(self).wf(),
        ensures
            final(self).wf(),
            final(self).server == old(self).server,
            final(self).metrics().dom() == old(self).metrics().dom(),
            forall|k: Seq<char>|
                k != stream_id@ && old(self).metrics().dom().contains(k) ==> final(self).metrics()[k] == old(self).metrics()[k],
            old(self).metrics().dom().contains(stream_id@) ==> {
                let o = old(self).metrics()[stream_id@];
                let f = final(self).metrics()[stream_id@];
                &&& f.total_parts == sat_add_spec(o.total_parts, 1)
                &&& f.average_part_duration_ms == running_mean(
                    o.average_part_duration_ms,
                    f.total_parts,
                    duration_ms,
                )
                &&& f == (StreamMetrics {
                    total_parts: f.total_parts,
                    average_part_duration_ms: f.average_part_duration_ms,
                    ..o
                })
            },
    {
        let ghost old_map = self.streams@;
        match self.streams.remove(stream_id) {
            Some(mut m) => {
                m.total_parts = sat_add(m.total_parts, 1);
                m.average_part_duration_ms = MetricsCalculator::calculate_average_part_duration(
                    m.average_part_duration_ms,
                    m.total_parts,
                    duration_ms,
                );
                self.streams.insert(String::from_str(stream_id), m);
                assert(self.streams@.dom() =~= old_map.dom());
            },
            None => {
                assert(self.streams@ =~= old_map);
            },
        }
    }

    /// Records the stream's latest latency and folds it into the server-wide
    /// mean.
    pub fn record_latency(&mut self, stream_id: &str, latency_ms: u32)
        requires
            old(self).wf(),
        ensures
            final(self).wf(),
            final(self).metrics().dom() == old(self).metrics().dom(),
            forall|k: Seq<char>|
                k != stream_id@ && old(self).metrics().dom().contains(k) ==> final(self).metrics()[k] == old(self).metrics()[k],
            old(self).metrics().dom().contains(stream_id@) ==> final(self).metrics()[stream_id@]
                == (StreamMetrics { latency_ms, ..old(self).metrics()[stream_id@] }),
            final(self).server.average_latency_ms == server_mean(
                old(self).server.average_latency_ms,
                old(self).server.active_streams,
                latency_ms as u64,
            ),
            final(self).server == (ServerMetrics {
                average_latency_ms: final(self).server.average_latency_ms,
                ..old(self).server
            }),
    {
        let ghost old_map = self.streams@;
        match self.streams.remove(stream_id) {
            Some(mut m) => {
                m.latency_ms = latency_ms;
                self.streams.insert(String::from_str(stream_id), m);
                assert(self.streams@.dom() =~= old_map.dom());
            },
            None => {
                assert(self.streams@ =~= old_map);
            },
        }
        self.server.average_latency_ms = MetricsCalculator::calculate_server_average_latency(
            self.server.average_latency_ms,
            self.server.active_streams,
            latency_ms as u64,
        );
    }

    /// Counts a segment that was dropped.
    pub fn record_dropped_segment(&mut self, stream_id: &str)
        requires
            old(self).wf(),
        ensures
            final(self).wf(),
            final(self).server == old(self).server,
            final(self).metrics().dom() == old(self).metrics().dom(),
            forall|k: Seq<char>|
                k != stream_id@ && old(self).metrics().dom().contains(k) ==> final(self).metrics()[k] == old(self).metrics()[k],
            old(self).metrics().dom().contains(stream_id@) ==> final(self).metrics()[stream_id@]
                == (StreamMetrics {
                dropped_segments: sat_add_spec(old(self).metrics()[stream_id@].dropped_segments, 1),
                ..old(self).metrics()[stream_id@]
            }),
    {
        let ghost old_map = self.streams@;
        match self.streams.remove(stream_id) {
            Some(mut m) => {
                m.dropped_segments = sat_add(m.dropped_segments, 1);
                self.streams.insert(String::from_str(stream_id), m);
                assert(self.streams@.dom() =~= old_map.dom());
            },
            None => {
                assert(self.streams@ =~= old_map);
            },
        }
    }

    /// Forgets a stream's metrics.
    pub fn remove_stream_metrics(&mut self, stream_id: &str)
        requires
            old(self).wf(),
        ensures
            final(self).wf(),
            final(self).metrics() == old(self).metrics().remove(stream_id@),
            final(self).server == (ServerMetrics {
                active_streams: final(self).server.active_streams,
                ..old(self).server
            }),
            final(self).server.active_streams == if old(self).metrics().dom().contains(stream_id@) {
                (old(self).server.active_streams - 1) as u32
            } else {
                old(self).server.active_streams
            },
    {
        let ghost old_dom = self.streams@.dom();
        proof {
            self.streams.lemma_dom_len();
        }
        let removed = self.streams.remove(stream_id);
        proof {
            if old_dom.contains(stream_id@) {
                assert(self.streams@.dom() =~= old_dom.remove(stream_id@));
            } else {
                assert(self.streams@.dom() =~= old_dom);
            }
        }
        if removed.is_some() {
            self.server.active_streams = self.server.active_streams - 1;
        }
    }

    /// A copy of a stream's metrics.
    pub fn get_stream_metrics(&self, stream_id: &str) -> (r: Option<StreamMetrics>)
        requires
            self.wf(),
        ensures
            r.is_some() == self.metrics().dom().contains(stream_id@),
            r.is_some() ==> r->0.same_as(&self.metrics()[stream_id@]),
    {
        match self.streams.get(stream_id) {
            Some(m) => Some(m.snapshot()),
            None => None,
        }
    }

    /// The server-wide counters, with the uptime as of `now_ms`.
    pub fn get_server_metrics(&self, now_ms: i64) -> (r: ServerMetrics)
        requires
            self.wf(),
        ensures
            r == (ServerMetrics {
                uptime_seconds: if now_ms > self.server.start_time_ms {
                    ((now_ms - self.server.start_time_ms) / 1000) as u64
                } else {
                    0
                },
                ..self.server
            }),
    {
        let mut s = self.server.snapshot();
        if now_ms > s.start_time_ms {
            s.uptime_seconds = (((now_ms as i128) - (s.start_time_ms as i128)) / 1000) as u64;
        } else {
            s.uptime_seconds = 0;
        }
        s
    }

    /// Copies of every stream's metrics.
    pub fn get_all_stream_metrics(&self) -> (r: Vec<StreamMetrics>)
        requires
            self.wf(),
        ensures
            r@.len() == self.metrics().dom().len(),
            forall|i: int|
                0 <= i < r@.len() ==> self.metrics().dom().contains((#[trigger] r@[i]).stream_id@)
                    && r@[i].same_as(&self.metrics()[r@[i].stream_id@]),
            forall|i: int, j: int|
                0 <= i < j < r@.len() ==> (#[trigger] r@[i]).stream_id@ != (#[trigger] r@[j]).stream_id@,
    {
        let keys = self.streams.key_list();
        let mut r: Vec<StreamMetrics> = Vec::new();
        let mut i: usize = 0;
        while i < keys.len()
            invariant
                self.wf(),
                i <= keys@.len(),
                r@.len() == i,
                keys@.len() == self.metrics().dom().len(),
                forall|j: int| 0 <= j < keys@.len() ==> self.metrics().dom().contains(#[trigger] keys@[j]@),
                forall|a: int, b: int|
                    0 <= a < b < keys@.len() ==> (#[trigger] keys@[a])@ != (#[trigger] keys@[b])@,
                forall|j: int|
                    0 <= j < i ==> self.metrics().dom().contains((#[trigger] r@[j]).stream_id@)
                        && r@[j].same_as(&self.metrics()[r@[j].stream_id@]) && r@[j].stream_id@
                        == keys@[j]@,
            decreases keys@.len() - i,
        {
            match self.streams.get(keys[i].as_str()) {
                Some(m) => {
                    r.push(m.snapshot());
                },
                None => {
                    assert(self.metrics().dom().contains(keys@[i as int]@));
                },
            }
            i = i + 1;
        }
        r
    }
}

} // verus!
