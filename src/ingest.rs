use vstd::prelude::*;
use crate::config::HlsConfig;
use crate::hints::{HintType, LLHLSPreloadHintManager};
use crate::index::{overflow, packager_segment_name, segment_latency, MediaTracker, SegmentInfo, SegmentMonitor};
use crate::latency::LatencyMonitor;
use crate::metrics::sat_add_spec;
use crate::playlist::{part_count_spec, LLHLSPlaylistGenerator, SegmentProcessor};
use crate::push::{has_prefix, resource_key_spec, LLHLSServerPush};

verus! {

/// Everything that follows the packager's output of the live streams.
pub struct LiveOutputs {
    pub tracker: MediaTracker,
    pub latency: LatencyMonitor,
    pub playlists: LLHLSPlaylistGenerator,
    pub hints: LLHLSPreloadHintManager,
    pub push: LLHLSServerPush,
}

/// How many parts a segment of the configured duration is cut into.
pub open spec fn parts_per_segment(hls: HlsConfig) -> nat {
    if hls.part_duration_ms == 0 {
        0
    } else {
        part_count_spec(hls.segment_duration_ms as nat, hls.part_duration_ms as nat)
    }
}

impl LiveOutputs {
    pub open spec fn wf(&self) -> bool {
        &&& self.tracker.wf()
        &&& self.latency.wf()
        &&& self.playlists.wf()
        &&& self.hints.wf()
        &&& self.push.wf()
    }

    pub fn new(hls: &HlsConfig, now_ms: i64) -> (r: LiveOutputs)
        ensures
            r.wf(),
            r.tracker.indexes@.dom().len() == 0,
            r.latency.target_latency_ms == hls.target_latency_ms,
    {
        LiveOutputs {
            tracker: MediaTracker::new(now_ms),
            latency: LatencyMonitor::new(hls.target_latency_ms),
            playlists: LLHLSPlaylistGenerator::new(hls),
            hints: LLHLSPreloadHintManager::new(),
            push: LLHLSServerPush::new(),
        }
    }

    /// Starts following a stream that began at `now_ms`: an empty index
    /// capped at `max_segments`, zeroed metrics and an empty playlist.
    pub fn open_stream(&mut self, stream_id: &str, max_segments: usize, now_ms: i64)
        requires
            old(self).wf(),
            old(self).tracker.metrics.server.active_streams < u32::MAX,
        ensures
            final(self).wf(),
            final(self).tracker.indexes@.dom() == old(self).tracker.indexes@.dom().insert(stream_id@),
            final(self).tracker.indexes@[stream_id@].segments@.len() == 0,
            final(self).tracker.indexes@[stream_id@].max_segments == max_segments,
            final(self).tracker.metrics.metrics()[stream_id@].total_segments == 0,
            final(self).playlists.streams@.dom() == old(self).playlists.streams@.dom().insert(
                stream_id@,
            ),
            final(self).playlists.streams@[stream_id@].segments@.len() == 0,
            final(self).latency == old(self).latency,
            final(self).hints == old(self).hints,
            final(self).push == old(self).push,
    {
        self.tracker.open_stream(stream_id, max_segments, now_ms);
        self.playlists.create_stream(String::from_str(stream_id), now_ms);
    }

    /// Stops following a stream: its index, metrics, latency window,
    /// playlist, hints and pushed resources go. Returns the segments its
    /// index still held, whose files may be deleted.
    pub fn close_stream(&mut self, stream_id: &str) -> (r: Vec<SegmentInfo>)
        requires
            old(self).wf(),
        ensures
            final(self).wf(),
            final(self).tracker.indexes@.dom() == old(self).tracker.indexes@.dom().remove(stream_id@),
            old(self).tracker.indexes@.dom().contains(stream_id@) ==> r@ == old(self).tracker.indexes@[stream_id@].segments@,
            final(self).latency.windows() == old(self).latency.windows().remove(stream_id@),
            final(self).playlists.streams@ == old(self).playlists.streams@.remove(stream_id@),
            final(self).hints.hints@ == old(self).hints.hints@.remove(stream_id@),
            forall|k: Seq<char>| #[trigger]
                final(self).push.resources@.dom().contains(k) <==> (old(self).push.resources@.dom().contains(
                    k,
                ) && !has_prefix(k, stream_id@ + "/"@)),
    {
        let r = self.tracker.close_stream(stream_id);
        self.latency.remove_stream_measurements(stream_id);
        self.playlists.remove_stream(stream_id);
        self.hints.remove_stream_hints(stream_id);
        self.push.remove_stream_resources(stream_id);
        r
    }

    /// The segment that `monitor` awaited was read from `file_path`, holding
    /// `bytes`, at `now_ms`. The segment goes into the stream's index and
    /// metrics, its parts are counted (with their latency, and preload hints
    /// when enabled), the playlist gains it, and with server push enabled it
    /// and the playlist are held for pushing. Returns the segments that the
    /// index evicted, whose files are to be deleted.
    pub fn on_segment_file(
        &mut self,
        monitor: &mut SegmentMonitor,
        hls: &HlsConfig,
        stream_id: &str,
        file_path: String,
        bytes: Vec<u8>,
        now_ms: i64,
    ) -> (r: Vec<SegmentInfo>)
        requires
            old(self).wf(),
        ensures
            final(self).wf(),
            final(monitor).next_sequence == sat_add_spec(old(monitor).next_sequence, 1),
            final(self).tracker.indexes@.dom() == old(self).tracker.indexes@.dom(),
            forall|k: Seq<char>|
                k != stream_id@ && old(self).tracker.indexes@.dom().contains(k) ==> final(self).tracker.indexes@[k] == old(self).tracker.indexes@[k],
            old(self).tracker.indexes@.dom().contains(stream_id@) ==> {
                let oi = old(self).tracker.indexes@[stream_id@];
                let fi = final(self).tracker.indexes@[stream_id@];
                let om = old(self).tracker.metrics.metrics()[stream_id@];
                let fm = final(self).tracker.metrics.metrics()[stream_id@];
                let seg = SegmentInfo {
                    file_path,
                    duration_ms: hls.segment_duration_ms,
                    size: bytes@.len() as u64,
                    created_at_ms: now_ms,
                };
                let all = oi.segments@.push(seg);
                let k = overflow(all.len(), oi.max_segments as nat) as int;
                &&& r@ == all.subrange(0, k)
                &&& fi.segments@ == all.subrange(k, all.len() as int)
                &&& fi.max_segments == oi.max_segments
                &&& fm.total_segments == sat_add_spec(om.total_segments, 1)
                &&& fm.total_bytes == sat_add_spec(om.total_bytes, bytes@.len() as u64)
                &&& fm.total_parts == sat_add_spec(om.total_parts, parts_per_segment(*hls) as u64)
            },
            !old(self).tracker.indexes@.dom().contains(stream_id@) ==> r@.len() == 0,
            final(self).latency.windows().dom().contains(stream_id@),
            old(self).playlists.streams@.dom().contains(stream_id@) ==> {
                let f = final(self).playlists.streams@[stream_id@];
                &&& f.sequence_number == sat_add_spec(
                    old(self).playlists.streams@[stream_id@].sequence_number,
                    1,
                )
                &&& f.segments@.len() > 0 ==> f.segments@.last().uri@ == packager_segment_name(
                    old(monitor).next_sequence,
                ) && f.segments@.last().duration_ms == hls.segment_duration_ms
            },
            hls.enable_server_push ==> {
                let key = resource_key_spec(stream_id@, packager_segment_name(old(monitor).next_sequence));
                &&& final(self).push.resources@.dom().contains(key)
                &&& final(self).push.resources@[key].data@ == bytes@
            },
            !hls.enable_server_push ==> final(self).push.resources@ == old(self).push.resources@,
    {
        let sequence = monitor.next_sequence;
        let name = monitor.expected_file_name();
        let size = bytes.len() as u64;
        let segment = SegmentInfo {
            file_path,
            duration_ms: hls.segment_duration_ms,
            size,
            created_at_ms: now_ms,
        };
        let ghost seg = segment;
        let ghost o_tracker = self.tracker;
        let evicted = monitor.on_segment_read(&mut self.tracker, stream_id, segment, now_ms);
        let latency = segment_latency(now_ms, None);
        self.latency.record_segment_latency(
            &mut self.tracker.metrics,
            stream_id,
            sequence,
            latency,
            now_ms,
        );
        let ghost mid = self.tracker;
        assert(self.tracker.wf()) by {
            assert(self.tracker.indexes@.dom() =~= self.tracker.metrics.metrics().dom());
        };
        let parts: Vec<u64> = if hls.part_duration_ms > 0 {
            SegmentProcessor::plan_parts(hls.segment_duration_ms, hls.part_duration_ms)
        } else {
            Vec::new()
        };
        assert(parts@.len() == parts_per_segment(*hls));
        let mut i: usize = 0;
        while i < parts.len()
            invariant
                self.wf(),
                i <= parts@.len(),
                parts@.len() == parts_per_segment(*hls),
                self.tracker.indexes@ == mid.indexes@,
                self.tracker.metrics.metrics().dom() == mid.metrics.metrics().dom(),
                forall|k: Seq<char>|
                    k != stream_id@ && mid.metrics.metrics().dom().contains(k) ==> self.tracker.metrics.metrics()[k]
                        == mid.metrics.metrics()[k],
                mid.metrics.metrics().dom().contains(stream_id@) ==> {
                    let m0 = mid.metrics.metrics()[stream_id@];
                    let m = self.tracker.metrics.metrics()[stream_id@];
                    &&& m.total_segments == m0.total_segments
                    &&& m.total_bytes == m0.total_bytes
                    &&& m.total_parts == sat_add_spec(m0.total_parts, i as u64)
                },
                self.latency.windows().dom().contains(stream_id@),
                self.playlists == old(self).playlists,
                self.push == old(self).push,
            decreases parts@.len() - i,
        {
            let part = i as u64;
            let duration = parts[i];
            self.tracker.metrics.record_part(stream_id, duration);
            assert(self.tracker.wf()) by {
                assert(self.tracker.indexes@.dom() =~= self.tracker.metrics.metrics().dom());
            };
            self.latency.record_part_latency(stream_id, sequence, part, latency, now_ms);
            if hls.enable_preload_hint {
                let uri = SegmentProcessor::part_file_name(sequence, part);
                self.hints.add_hint(stream_id, uri, HintType::Part, Some(duration), now_ms);
            }
            i = i + 1;
        }
        self.playlists.add_segment(stream_id, name.clone(), hls.segment_duration_ms, true, now_ms);
        if hls.enable_server_push {
            let playlist = self.playlists.generate_playlist(stream_id);
            let ghost key = resource_key_spec(stream_id@, name@);
            let ghost pkey = resource_key_spec(stream_id@, "playlist.m3u8"@);
            proof {
                reveal_strlit("playlist.m3u8");
                reveal_strlit("segment_");
                reveal_strlit("/");
                let n = stream_id@.len() as int;
                assert(key[n + 1] == 's');
                assert(pkey[n + 1] == 'p');
                assert(key != pkey);
            }
            self.push.push_segment(stream_id, name.as_str(), bytes, now_ms);
            match playlist {
                Ok(text) => self.push.push_playlist(stream_id, text.as_str(), now_ms),
                Err(_) => {},
            }
            assert(self.push.resources@.dom().contains(key));
            assert(self.push.resources@[key].last_modified_ms == now_ms);
            self.push.cleanup_old_resources(stream_id, now_ms);
            assert(self.push.resources@.dom().contains(key));
        }
        self.hints.cleanup_old_hints(stream_id, now_ms);
        evicted
    }
}

} // verus!
