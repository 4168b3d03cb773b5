use vstd::prelude::*;
use crate::metrics::{MetricsCollector, bitrate_spec, running_mean, sat_add, sat_add_spec};
use crate::table::{StreamTable, str_eq};
use crate::text::{decimal, decimal_spec};
use vstd::string::*;

verus! {

/// A media file the packager produced.
pub struct SegmentInfo {
    pub file_path: String,
    pub duration_ms: u64,
    pub size: u64,
    pub created_at_ms: i64,
}

/// How many of the oldest entries leave a list of `len` capped at `max`.
pub open spec fn overflow(len: nat, max: nat) -> nat {
    if len > max {
        (len - max) as nat
    } else {
        0
    }
}

/// The segments of one stream, oldest first, capped at `max_segments`, with
/// the number of segments ever appended.
pub struct SegmentIndex {
    pub segments: Vec<SegmentInfo>,
    pub max_segments: usize,
    pub appended: u64,
}

impl SegmentIndex {
    pub open spec fn wf(&self) -> bool {
        self.segments@.len() <= self.max_segments
    }

    pub fn new(max_segments: usize) -> (r: SegmentIndex)
        ensures
            r.wf(),
            r.segments@.len() == 0,
            r.max_segments == max_segments,
            r.appended == 0,
    {
        SegmentIndex { segments: Vec::new(), max_segments, appended: 0 }
    }

    pub fn len(&self) -> (r: usize)
        ensures
            r == self.segments@.len(),
    {
        self.segments.len()
    }

    /// Drops the oldest segments until at most `max` remain and returns them,
    /// oldest first, so that their files can be deleted.
    pub fn evict_until(&mut self, max: usize) -> (r: Vec<SegmentInfo>)
        ensures
            final(self).max_segments == old(self).max_segments,
            final(self).appended == old(self).appended,
            final(self).segments@.len() <= max,
            r@ == old(self).segments@.subrange(
                0,
                overflow(old(self).segments@.len(), max as nat) as int,
            ),
            final(self).segments@ == old(self).segments@.subrange(
                overflow(old(self).segments@.len(), max as nat) as int,
                old(self).segments@.len() as int,
            ),
    {
        let mut evicted: Vec<SegmentInfo> = Vec::new();
        if self.segments.len() <= max {
            assert(self.segments@.subrange(0, self.segments@.len() as int) =~= self.segments@);
            return evicted;
        }
        let k = self.segments.len() - max;
        let ghost o = self.segments@;
        let mut i: usize = 0;
        while i < k
            invariant
                k == o.len() - max,
                i <= k,
                evicted@ == o.subrange(0, i as int),
                self.segments@ == o.subrange(i as int, o.len() as int),
                self.max_segments == old(self).max_segments,
                self.appended == old(self).appended,
            decreases k - i,
        {
            let s = self.segments.remove(0);
            evicted.push(s);
            i = i + 1;
            assert(evicted@ =~= o.subrange(0, i as int));
            assert(self.segments@ =~= o.subrange(i as int, o.len() as int));
        }
        evicted
    }

    /// Appends a new segment and evicts the oldest beyond `max_segments`;
    /// returns the evicted segments, oldest first.
    pub fn append(&mut self, segment: SegmentInfo) -> (r: Vec<SegmentInfo>)
        requires
            old(self).wf(),
        ensures
            final(self).wf(),
            final(self).max_segments == old(self).max_segments,
            final(self).appended == sat_add_spec(old(self).appended, 1),
            ({
                let all = old(self).segments@.push(segment);
                let k = overflow(all.len(), old(self).max_segments as nat) as int;
                &&& r@ == all.subrange(0, k)
                &&& final(self).segments@ == all.subrange(k, all.len() as int)
            }),
    {
        self.segments.push(segment);
        self.appended = sat_add(self.appended, 1);
        let max = self.max_segments;
        self.evict_until(max)
    }

    /// The segment stored under `path`, if any.
    pub fn lookup(&self, path: &str) -> (r: Option<usize>)
        ensures
            match r {
                Some(i) => i < self.segments@.len() && self.segments@[i as int].file_path@ == path@,
                None => forall|i: int|
                    0 <= i < self.segments@.len() ==> self.segments@[i].file_path@ != path@,
            },
    {
        let mut i: usize = 0;
        while i < self.segments.len()
            invariant
                i <= self.segments@.len(),
                forall|j: int| 0 <= j < i ==> self.segments@[j].file_path@ != path@,
            decreases self.segments@.len() - i,
        {
            if str_eq(self.segments[i].file_path.as_str(), path) {
                return Some(i);
            }
            i = i + 1;
        }
        None
    }

    /// Forgets every segment, returning them so that their files can go too.
    pub fn clear(&mut self) -> (r: Vec<SegmentInfo>)
        ensures
            r@ == old(self).segments@,
            final(self).segments@.len() == 0,
            final(self).max_segments == old(self).max_segments,
            final(self).appended == old(self).appended,
    {
        let mut out: Vec<SegmentInfo> = Vec::new();
        std::mem::swap(&mut out, &mut self.segments);
        out
    }
}

/// What recording `segment` of `stream_id` does to a tracker, when the
/// stream is tracked: the segment joins the end of the stream's index, the
/// oldest beyond its cap are evicted and handed back (`evicted`), the
/// stream's metrics count the segment, and every other stream is untouched.
/// An untracked stream leaves the tracker as it is and evicts nothing.
pub open spec fn segment_recorded(
    o: MediaTracker,
    f: MediaTracker,
    stream_id: Seq<char>,
    segment: SegmentInfo,
    now_ms: i64,
    evicted: Seq<SegmentInfo>,
) -> bool {
    &&& f.indexes@.dom() == o.indexes@.dom()
    &&& f.metrics.server == o.metrics.server
    &&& forall|k: Seq<char>|
        k != stream_id && o.indexes@.dom().contains(k) ==> f.indexes@[k] == o.indexes@[k]
            && f.metrics.metrics()[k] == o.metrics.metrics()[k]
    &&& o.indexes@.dom().contains(stream_id) ==> {
        let oi = o.indexes@[stream_id];
        let fi = f.indexes@[stream_id];
        let om = o.metrics.metrics()[stream_id];
        let fm = f.metrics.metrics()[stream_id];
        let all = oi.segments@.push(segment);
        let k = overflow(all.len(), oi.max_segments as nat) as int;
        &&& evicted == all.subrange(0, k)
        &&& fi.segments@ == all.subrange(k, all.len() as int)
        &&& fi.max_segments == oi.max_segments
        &&& fi.appended == sat_add_spec(oi.appended, 1)
        &&& fm.total_segments == sat_add_spec(om.total_segments, 1)
        &&& fm.total_bytes == sat_add_spec(om.total_bytes, segment.size)
        &&& fm.last_segment_time_ms == Some(now_ms)
        &&& fm.average_segment_duration_ms == running_mean(
            om.average_segment_duration_ms,
            fm.total_segments,
            segment.duration_ms,
        )
        &&& fm.current_bitrate == bitrate_spec(fm.total_bytes, om.start_time_ms, Some(now_ms))
        &&& fm.stream_id == om.stream_id
        &&& fm.start_time_ms == om.start_time_ms
        &&& fm.total_parts == om.total_parts
        &&& fm.average_part_duration_ms == om.average_part_duration_ms
        &&& fm.dropped_segments == om.dropped_segments
        &&& fm.latency_ms == om.latency_ms
    }
    &&& !o.indexes@.dom().contains(stream_id) ==> evicted.len() == 0 && f.indexes@ == o.indexes@
        && f.metrics.metrics() == o.metrics.metrics()
}

/// The segment indexes and the metrics of every live stream, kept in step.
pub struct MediaTracker {
    pub indexes: StreamTable<SegmentIndex>,
    pub metrics: MetricsCollector,
}

impl MediaTracker {
    /// Both sides know the same streams, and for each the number of segments
    /// the index recorded is the number the metrics counted.
    pub open spec fn wf(&self) -> bool {
        &&& self.indexes.wf()
        &&& self.metrics.wf()
        &&& self.indexes@.dom() == self.metrics.metrics().dom()
        &&& forall|k: Seq<char>| #[trigger]
            self.indexes@.dom().contains(k) ==> self.indexes@[k].wf()
                && self.indexes@[k].appended == self.metrics.metrics()[k].total_segments
    }

    pub fn new(now_ms: i64) -> (r: MediaTracker)
        ensures
            r.wf(),
            r.indexes@.dom().len() == 0,
    {
        let r = MediaTracker { indexes: StreamTable::new(), metrics: MetricsCollector::new(now_ms) };
        assert(r.indexes@.dom() =~= r.metrics.metrics().dom());
        r
    }

    /// Starts tracking a stream that began at `now_ms`, with an empty index
    /// capped at `max_segments`. A stream already tracked starts over.
    pub fn open_stream(&mut self, stream_id: &str, max_segments: usize, now_ms: i64)
        requires
            old(self).wf(),
            old(self).metrics.server.active_streams < u32::MAX,
        ensures
            final(self).wf(),
            final(self).indexes@.dom() == old(self).indexes@.dom().insert(stream_id@),
            final(self).indexes@[stream_id@].segments@.len() == 0,
            final(self).indexes@[stream_id@].max_segments == max_segments,
            final(self).indexes@[stream_id@].appended == 0,
            final(self).metrics.metrics()[stream_id@].total_segments == 0,
            final(self).metrics.metrics()[stream_id@].start_time_ms == now_ms,
            forall|k: Seq<char>|
                k != stream_id@ && old(self).indexes@.dom().contains(k) ==> final(self).indexes@[k]
                    == old(self).indexes@[k] && final(self).metrics.metrics()[k]
                    == old(self).metrics.metrics()[k],
    {
        self.metrics.create_stream_metrics(String::from_str(stream_id), now_ms);
        self.indexes.insert(String::from_str(stream_id), SegmentIndex::new(max_segments));
        assert(self.indexes@.dom() =~= self.metrics.metrics().dom());
    }

    /// Records a finished segment of `stream_id` in its index and its
    /// metrics; returns what the index evicted. An unknown stream is ignored.
    pub fn on_segment(&mut self, stream_id: &str, segment: SegmentInfo, now_ms: i64) -> (r: Vec<
        SegmentInfo,
    >)
        requires
            old(self).wf(),
        ensures
            final(self).wf(),
            segment_recorded(*old(self), *final(self), stream_id@, segment, now_ms, r@),
    {
        let ghost old_idx = self.indexes@;
        match self.indexes.remove(stream_id) {
            Some(mut index) => {
                let duration = segment.duration_ms;
                let size = segment.size;
                let evicted = index.append(segment);
                self.indexes.insert(String::from_str(stream_id), index);
                self.metrics.record_segment(stream_id, duration, size, now_ms);
                assert(self.indexes@.dom() =~= old_idx.dom());
                evicted
            },
            None => {
                assert(self.indexes@ =~= old_idx);
                let e: Vec<SegmentInfo> = Vec::new();
                assert(e@.len() == 0);
                e
            },
        }
    }

    /// Stops tracking a stream; returns the segments its index still held.
    pub fn close_stream(&mut self, stream_id: &str) -> (r: Vec<SegmentInfo>)
        requires
            old(self).wf(),
        ensures
            final(self).wf(),
            final(self).indexes@.dom() == old(self).indexes@.dom().remove(stream_id@),
            old(self).indexes@.dom().contains(stream_id@) ==> r@ == old(
                self,
            ).indexes@[stream_id@].segments@,
    {
        self.metrics.remove_stream_metrics(stream_id);
        let r = match self.indexes.remove(stream_id) {
            Some(mut index) => index.clear(),
            None => Vec::new(),
        };
        assert(self.indexes@.dom() =~= self.metrics.metrics().dom());
        r
    }
}

/// `segment_<n>.m4s`: the name the packager gives its `n`-th segment.
pub open spec fn packager_segment_name(n: u64) -> Seq<char> {
    "segment_"@ + decimal_spec(n as nat) + ".m4s"@
}

/// The latency of a segment whose program date-time is `pdt_ms`, observed at
/// `now_ms`: the time in between, clamped to the `u32` range. A segment
/// without a program date-time gives 0, as it is measured against the
/// current time.
pub open spec fn segment_latency_spec(now_ms: i64, pdt_ms: Option<i64>) -> u32 {
    match pdt_ms {
        Some(p) => if now_ms - p <= 0 {
            0
        } else if now_ms - p >= u32::MAX {
            u32::MAX
        } else {
            (now_ms - p) as u32
        },
        None => 0,
    }
}

pub fn segment_latency(now_ms: i64, pdt_ms: Option<i64>) -> (r: u32)
    ensures
        r == segment_latency_spec(now_ms, pdt_ms),
{
    match pdt_ms {
        Some(p) => {
            let d = (now_ms as i128) - (p as i128);
            if d <= 0 {
                0
            } else if d >= u32::MAX as i128 {
                u32::MAX
            } else {
                d as u32
            }
        },
        None => 0,
    }
}

/// Follows the packager's output of one stream: which segment file to look
/// for next.
pub struct SegmentMonitor {
    pub next_sequence: u64,
}

impl SegmentMonitor {
    pub fn new() -> (r: SegmentMonitor)
        ensures
            r.next_sequence == 0,
    {
        SegmentMonitor { next_sequence: 0 }
    }

    /// The file name of the segment awaited next.
    pub fn expected_file_name(&self) -> (r: String)
        ensures
            r@ == packager_segment_name(self.next_sequence),
    {
        let mut s = String::from_str("segment_");
        let n = decimal(self.next_sequence);
        s.append(n.as_str());
        s.append(".m4s");
        s
    }

    /// The awaited segment was read: it goes into the stream's index and
    /// metrics, and the next one is awaited. Returns the segment files the
    /// index evicted, to be deleted.
    pub fn on_segment_read(&mut self, tracker: &mut MediaTracker, stream_id: &str, segment: SegmentInfo, now_ms: i64) -> (r: Vec<SegmentInfo>)
        requires
            old(tracker).wf(),
        ensures
            final(tracker).wf(),
            final(self).next_sequence == sat_add_spec(old(self).next_sequence, 1),
            segment_recorded(*old(tracker), *final(tracker), stream_id@, segment, now_ms, r@),
    {
        let evicted = tracker.on_segment(stream_id, segment, now_ms);
        self.next_sequence = sat_add(self.next_sequence, 1);
        evicted
    }
}

/// For every tracked stream, the number of segments its index recorded
/// equals the `total_segments` its metrics report.
pub proof fn lemma_index_matches_metrics(t: MediaTracker, stream_id: Seq<char>)
    requires
        t.wf(),
        t.indexes@.dom().contains(stream_id),
    ensures
        t.metrics.metrics().dom().contains(stream_id),
        t.indexes@[stream_id].appended == t.metrics.metrics()[stream_id].total_segments,
{
}

} // verus!
