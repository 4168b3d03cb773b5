use vstd::prelude::*;
use vstd::string::*;
use crate::config::{BitrateVariant, HlsConfig};
use crate::table::StreamTable;
use crate::metrics::{sat_add, sat_add_spec};
use crate::text::{decimal, decimal_spec, padded, padded_spec, seconds, seconds_spec};

verus! {

/// Whether a media playlist may still change its past entries.
#[derive(Clone, Copy, PartialEq, Eq, Structural, Debug)]
pub enum PlaylistType {
    Event,
    Live,
}

/// One media segment of a playlist. Durations are milliseconds.
pub struct Segment {
    pub uri: String,
    pub duration_ms: u64,
    pub sequence: u64,
    pub is_independent: bool,
}

/// One part of a segment.
pub struct Part {
    pub uri: String,
    pub duration_ms: u64,
    pub is_independent: bool,
}

/// What a media playlist is generated from.
pub struct StreamState {
    pub stream_id: String,
    pub sequence_number: u64,
    pub target_duration_ms: u64,
    pub segments: Vec<Segment>,
    pub last_updated_ms: i64,
    pub playlist_type: PlaylistType,
}

pub open spec fn segment_lines(s: Segment) -> Seq<char> {
    (if s.is_independent {
        "#EXT-X-INDEPENDENT-SEGMENTS\n"@
    } else {
        Seq::empty()
    }) + "#EXTINF:"@ + seconds_spec(s.duration_ms as nat) + ",\n"@ + s.uri@ + "\n"@
}

pub open spec fn segments_text(s: Seq<Segment>) -> Seq<char>
    decreases s.len(),
{
    if s.len() == 0 {
        Seq::empty()
    } else {
        segments_text(s.drop_last()) + segment_lines(s.last())
    }
}

/// A media playlist: version 9, the target duration in whole seconds, the
/// media sequence, the playlist type, blocking reload, then the segments.
pub open spec fn basic_playlist_spec(st: StreamState) -> Seq<char> {
    "#EXTM3U\n#EXT-X-VERSION:9\n#EXT-X-TARGETDURATION:"@ + decimal_spec(
        (st.target_duration_ms / 1000) as nat,
    ) + "\n#EXT-X-MEDIA-SEQUENCE:"@ + decimal_spec(st.sequence_number as nat) + "\n"@ + (
    match st.playlist_type {
        PlaylistType::Event => "#EXT-X-PLAYLIST-TYPE:EVENT\n"@,
        PlaylistType::Live => "#EXT-X-PLAYLIST-TYPE:LIVE\n"@,
    }) + "#EXT-X-SERVER-CONTROL:CAN-BLOCK-RELOAD=YES,PART-HOLD-BACK=1.0,CAN-SKIP-UNTIL=0\n"@
        + segments_text(st.segments@)
}

pub open spec fn variant_lines(v: BitrateVariant) -> Seq<char> {
    "#EXT-X-STREAM-INF:BANDWIDTH="@ + decimal_spec(v.bandwidth as nat) + ",RESOLUTION="@
        + v.resolution@ + "\n"@ + v.name@ + ".m3u8\n"@
}

pub open spec fn variants_text(v: Seq<BitrateVariant>) -> Seq<char>
    decreases v.len(),
{
    if v.len() == 0 {
        Seq::empty()
    } else {
        variants_text(v.drop_last()) + variant_lines(v.last())
    }
}

/// A master playlist listing one stream entry per variant.
pub open spec fn master_playlist_spec(v: Seq<BitrateVariant>) -> Seq<char> {
    "#EXTM3U\n#EXT-X-VERSION:9\n"@ + variants_text(v)
}

/// Builds playlist text.
pub struct PlaylistBuilder;

impl PlaylistBuilder {
    /// The media playlist of a stream.
    pub fn build_basic_playlist(stream_state: &StreamState) -> (r: String)
        ensures
            r@ == basic_playlist_spec(*stream_state),
    {
        let mut p = String::from_str("#EXTM3U\n#EXT-X-VERSION:9\n#EXT-X-TARGETDURATION:");
        let td = decimal(stream_state.target_duration_ms / 1000);
        p.append(td.as_str());
        p.append("\n#EXT-X-MEDIA-SEQUENCE:");
        let sq = decimal(stream_state.sequence_number);
        p.append(sq.as_str());
        p.append("\n");
        match stream_state.playlist_type {
            PlaylistType::Event => p.append("#EXT-X-PLAYLIST-TYPE:EVENT\n"),
            PlaylistType::Live => p.append("#EXT-X-PLAYLIST-TYPE:LIVE\n"),
        }
        p.append(
            "#EXT-X-SERVER-CONTROL:CAN-BLOCK-RELOAD=YES,PART-HOLD-BACK=1.0,CAN-SKIP-UNTIL=0\n",
        );
        let ghost head = p@;
        let segs = &stream_state.segments;
        let mut i: usize = 0;
        while i < segs.len()
            invariant
                i <= segs@.len(),
                p@ == head + segments_text(segs@.subrange(0, i as int)),
            decreases segs@.len() - i,
        {
            let ghost before = p@;
            let seg = &segs[i];
            if seg.is_independent {
                p.append("#EXT-X-INDEPENDENT-SEGMENTS\n");
            }
            p.append("#EXTINF:");
            let d = seconds(seg.duration_ms);
            p.append(d.as_str());
            p.append(",\n");
            p.append(seg.uri.as_str());
            p.append("\n");
            assert(segs@.subrange(0, i as int + 1).drop_last() =~= segs@.subrange(0, i as int));
            assert(p@ =~= before + segment_lines(segs@[i as int]));
            i = i + 1;
        }
        assert(segs@.subrange(0, segs@.len() as int) =~= segs@);
        p
    }

    /// The master playlist over the configured variants.
    pub fn build_master_playlist(variants: &[BitrateVariant]) -> (r: String)
        ensures
            r@ == master_playlist_spec(variants@),
    {
        let mut p = String::from_str("#EXTM3U\n#EXT-X-VERSION:9\n");
        let ghost head = p@;
        let mut i: usize = 0;
        while i < variants.len()
            invariant
                i <= variants@.len(),
                p@ == head + variants_text(variants@.subrange(0, i as int)),
                head == "#EXTM3U\n#EXT-X-VERSION:9\n"@,
            decreases variants@.len() - i,
        {
            let ghost before = p@;
            let v = &variants[i];
            p.append("#EXT-X-STREAM-INF:BANDWIDTH=");
            let bw = decimal(v.bandwidth as u64);
            p.append(bw.as_str());
            p.append(",RESOLUTION=");
            p.append(v.resolution.as_str());
            p.append("\n");
            p.append(v.name.as_str());
            p.append(".m3u8\n");
            assert(variants@.subrange(0, i as int + 1).drop_last() =~= variants@.subrange(
                0,
                i as int,
            ));
            assert(p@ =~= before + variant_lines(variants@[i as int]));
            i = i + 1;
        }
        assert(variants@.subrange(0, variants@.len() as int) =~= variants@);
        p
    }

    /// Appends a segment and advances the media sequence.
    pub fn add_segment(stream_state: &mut StreamState, segment: Segment, now_ms: i64)
        ensures
            final(stream_state).segments@ == old(stream_state).segments@.push(segment),
            final(stream_state).sequence_number == sat_add_spec(
                old(stream_state).sequence_number,
                1,
            ),
            final(stream_state).last_updated_ms == now_ms,
            final(stream_state).target_duration_ms == old(stream_state).target_duration_ms,
            final(stream_state).playlist_type == old(stream_state).playlist_type,
            final(stream_state).stream_id == old(stream_state).stream_id,
    {
        stream_state.segments.push(segment);
        stream_state.sequence_number = sat_add(stream_state.sequence_number, 1);
        stream_state.last_updated_ms = now_ms;
    }

    /// Drops the oldest segments beyond `max_segments`.
    pub fn cleanup_old_segments(stream_state: &mut StreamState, max_segments: u32)
        ensures
            final(stream_state).segments@ == old(stream_state).segments@.subrange(
                if old(stream_state).segments@.len() > max_segments {
                    old(stream_state).segments@.len() - max_segments
                } else {
                    0
                },
                old(stream_state).segments@.len() as int,
            ),
            final(stream_state).sequence_number == old(stream_state).sequence_number,
            final(stream_state).last_updated_ms == old(stream_state).last_updated_ms,
            final(stream_state).target_duration_ms == old(stream_state).target_duration_ms,
            final(stream_state).playlist_type == old(stream_state).playlist_type,
            final(stream_state).stream_id == old(stream_state).stream_id,
    {
        let max = max_segments as usize;
        if stream_state.segments.len() <= max {
            assert(stream_state.segments@.subrange(0, stream_state.segments@.len() as int)
                =~= stream_state.segments@);
            return;
        }
        let ghost o = stream_state.segments@;
        let k = stream_state.segments.len() - max;
        let mut i: usize = 0;
        while i < k
            invariant
                k == o.len() - max,
                i <= k,
                stream_state.segments@ == o.subrange(i as int, o.len() as int),
                stream_state.sequence_number == old(stream_state).sequence_number,
                stream_state.last_updated_ms == old(stream_state).last_updated_ms,
                stream_state.target_duration_ms == old(stream_state).target_duration_ms,
                stream_state.playlist_type == old(stream_state).playlist_type,
                stream_state.stream_id == old(stream_state).stream_id,
            decreases k - i,
        {
            stream_state.segments.remove(0);
            i = i + 1;
            assert(stream_state.segments@ =~= o.subrange(i as int, o.len() as int));
        }
    }
}

/// `segment_<seq, six digits>.m4s`.
pub open spec fn segment_file_name_spec(sequence: u64) -> Seq<char> {
    "segment_"@ + padded_spec(sequence as nat, 6) + ".m4s"@
}

/// `segment_<seq, six digits>_part_<part, three digits>.m4s`.
pub open spec fn part_file_name_spec(segment: u64, part: u64) -> Seq<char> {
    "segment_"@ + padded_spec(segment as nat, 6) + "_part_"@ + padded_spec(part as nat, 3)
        + ".m4s"@
}

/// The durations of the parts a segment is cut into: full parts, and a last
/// part with what remains.
pub open spec fn part_plan_spec(segment_ms: nat, part_ms: nat) -> Seq<u64> {
    Seq::new(
        part_count_spec(segment_ms, part_ms),
        |i: int|
            if i == part_count_spec(segment_ms, part_ms) - 1 {
                (segment_ms - i * part_ms) as u64
            } else {
                part_ms as u64
            },
    )
}

/// How many parts a segment of `segment_ms` is cut into: its length divided
/// by `part_ms`, rounded up.
pub open spec fn part_count_spec(segment_ms: nat, part_ms: nat) -> nat {
    if segment_ms % part_ms == 0 {
        segment_ms / part_ms
    } else {
        (segment_ms / part_ms + 1) as nat
    }
}

/// Playlist settings taken from the HLS configuration.
pub struct PlaylistConfig {
    pub target_duration_ms: u64,
    pub part_duration_ms: u64,
    pub max_segments: u32,
    pub max_parts: u32,
    pub enable_server_push: bool,
    pub enable_preload_hint: bool,
}

impl PlaylistConfig {
    pub fn from_hls(hls: &HlsConfig) -> (r: PlaylistConfig)
        ensures
            r.target_duration_ms == hls.segment_duration_ms,
            r.part_duration_ms == hls.part_duration_ms,
            r.max_segments == hls.max_segments,
            r.max_parts == hls.max_parts,
            r.enable_server_push == hls.enable_server_push,
            r.enable_preload_hint == hls.enable_preload_hint,
    {
        PlaylistConfig {
            target_duration_ms: hls.segment_duration_ms,
            part_duration_ms: hls.part_duration_ms,
            max_segments: hls.max_segments,
            max_parts: hls.max_parts,
            enable_server_push: hls.enable_server_push,
            enable_preload_hint: hls.enable_preload_hint,
        }
    }
}

/// The requested stream has no playlist.
#[derive(Clone, Copy, PartialEq, Eq, Structural, Debug)]
pub enum PlaylistError {
    NotFound,
}

/// The media playlists of every stream, each capped at `max_segments`.
pub struct LLHLSPlaylistGenerator {
    pub streams: StreamTable<StreamState>,
    pub config: PlaylistConfig,
}

impl LLHLSPlaylistGenerator {
    pub open spec fn wf(&self) -> bool {
        &&& self.streams.wf()
        &&& forall|k: Seq<char>| #[trigger]
            self.streams@.dom().contains(k) ==> self.streams@[k].segments@.len()
                <= self.config.max_segments
    }

    pub fn new(hls_config: &HlsConfig) -> (r: LLHLSPlaylistGenerator)
        ensures
            r.wf(),
            r.streams@ == Map::<Seq<char>, StreamState>::empty(),
            r.config.target_duration_ms == hls_config.segment_duration_ms,
            r.config.max_segments == hls_config.max_segments,
    {
        LLHLSPlaylistGenerator { streams: StreamTable::new(), config: PlaylistConfig::from_hls(hls_config) }
    }

    /// Starts an empty live playlist for a stream, replacing any earlier one.
    pub fn create_stream(&mut self, stream_id: String, now_ms: i64)
        requires
            old(self).wf(),
        ensures
            final(self).wf(),
            final(self).config == old(self).config,
            final(self).streams@.dom() == old(self).streams@.dom().insert(stream_id@),
            ({
                let st = final(self).streams@[stream_id@];
                &&& st.stream_id@ == stream_id@
                &&& st.sequence_number == 0
                &&& st.target_duration_ms == old(self).config.target_duration_ms
                &&& st.segments@.len() == 0
                &&& st.last_updated_ms == now_ms
                &&& st.playlist_type == PlaylistType::Live
            }),
            forall|k: Seq<char>|
                k != stream_id@ && old(self).streams@.dom().contains(k) ==> final(self).streams@[k]
                    == old(self).streams@[k],
    {
        let key = stream_id.clone();
        let st = StreamState {
            stream_id,
            sequence_number: 0,
            target_duration_ms: self.config.target_duration_ms,
            segments: Vec::new(),
            last_updated_ms: now_ms,
            playlist_type: PlaylistType::Live,
        };
        self.streams.insert(key, st);
    }

    /// Appends a segment to a stream's playlist at `now_ms` and drops the
    /// oldest beyond `max_segments`. An unknown stream is ignored.
    pub fn add_segment(&mut self, stream_id: &str, uri: String, duration_ms: u64, is_independent: bool, now_ms: i64)
        requires
            old(self).wf(),
        ensures
            final(self).wf(),
            final(self).config == old(self).config,
            final(self).streams@.dom() == old(self).streams@.dom(),
            old(self).streams@.dom().contains(stream_id@) ==> ({
                let o = old(self).streams@[stream_id@];
                let f = final(self).streams@[stream_id@];
                let all = o.segments@.push(
                    Segment { uri, duration_ms, sequence: o.sequence_number, is_independent },
                );
                &&& f.segments@ == all.subrange(
                    if all.len() > old(self).config.max_segments {
                        all.len() - old(self).config.max_segments
                    } else {
                        0
                    },
                    all.len() as int,
                )
                &&& f.sequence_number == sat_add_spec(o.sequence_number, 1)
                &&& f.last_updated_ms == now_ms
            }),
            forall|k: Seq<char>|
                k != stream_id@ && old(self).streams@.dom().contains(k) ==> final(self).streams@[k]
                    == old(self).streams@[k],
    {
        let ghost o = self.streams@;
        match self.streams.remove(stream_id) {
            Some(mut st) => {
                let segment = Segment { uri, duration_ms, sequence: st.sequence_number, is_independent };
                PlaylistBuilder::add_segment(&mut st, segment, now_ms);
                PlaylistBuilder::cleanup_old_segments(&mut st, self.config.max_segments);
                self.streams.insert(String::from_str(stream_id), st);
                assert(self.streams@.dom() =~= o.dom());
            },
            None => {
                assert(self.streams@ =~= o);
            },
        }
    }

    /// The media playlist of a stream.
    pub fn generate_playlist(&self, stream_id: &str) -> (r: Result<String, PlaylistError>)
        requires
            self.wf(),
        ensures
            self.streams@.dom().contains(stream_id@) ==> r is Ok && r->Ok_0@ == basic_playlist_spec(
                self.streams@[stream_id@],
            ),
            !self.streams@.dom().contains(stream_id@) ==> r == Err::<String, PlaylistError>(
                PlaylistError::NotFound,
            ),
    {
        match self.streams.get(stream_id) {
            Some(st) => Ok(PlaylistBuilder::build_basic_playlist(st)),
            None => Err(PlaylistError::NotFound),
        }
    }

    /// The master playlist over the given variants.
    pub fn generate_master_playlist(&self, variants: &[BitrateVariant]) -> (r: String)
        ensures
            r@ == master_playlist_spec(variants@),
    {
        PlaylistBuilder::build_master_playlist(variants)
    }

    /// Forgets a stream's playlist.
    pub fn remove_stream(&mut self, stream_id: &str)
        requires
            old(self).wf(),
        ensures
            final(self).wf(),
            final(self).streams@ == old(self).streams@.remove(stream_id@),
            final(self).config == old(self).config,
    {
        let _ = self.streams.remove(stream_id);
    }
}

/// Names and paths of the files the packager writes.
pub struct SegmentProcessor;

impl SegmentProcessor {
    pub fn segment_file_name(sequence: u64) -> (r: String)
        ensures
            r@ == segment_file_name_spec(sequence),
    {
        let mut s = String::from_str("segment_");
        let n = padded(sequence, 6);
        s.append(n.as_str());
        s.append(".m4s");
        s
    }

    pub fn part_file_name(segment: u64, part: u64) -> (r: String)
        ensures
            r@ == part_file_name_spec(segment, part),
    {
        let mut s = String::from_str("segment_");
        let n = padded(segment, 6);
        s.append(n.as_str());
        s.append("_part_");
        let p = padded(part, 3);
        s.append(p.as_str());
        s.append(".m4s");
        s
    }

    /// Every tenth part, starting with the first, begins with a key frame.
    pub fn is_independent_part(part: u64) -> (r: bool)
        ensures
            r == (part % 10 == 0),
    {
        part % 10 == 0
    }

    /// `<output_dir>/<stream_id>/<filename>`.
    pub fn get_segment_path(output_dir: &str, stream_id: &str, filename: &str) -> (r: String)
        ensures
            r@ == output_dir@ + "/"@ + stream_id@ + "/"@ + filename@,
    {
        let mut s = String::from_str(output_dir);
        s.append("/");
        s.append(stream_id);
        s.append("/");
        s.append(filename);
        s
    }

    /// The part durations of a segment of `segment_ms`, cut every `part_ms`.
    pub fn plan_parts(segment_ms: u64, part_ms: u64) -> (r: Vec<u64>)
        requires
            part_ms > 0,
        ensures
            r@ == part_plan_spec(segment_ms as nat, part_ms as nat),
    {
        let count: u64 = if segment_ms % part_ms == 0 {
            segment_ms / part_ms
        } else {
            assert(part_ms >= 2);
            assert(segment_ms / part_ms < u64::MAX) by (nonlinear_arith)
                requires
                    part_ms >= 2,
            ;
            segment_ms / part_ms + 1
        };
        let ghost spec = part_plan_spec(segment_ms as nat, part_ms as nat);
        let mut r: Vec<u64> = Vec::new();
        let mut i: u64 = 0;
        while i < count
            invariant
                i <= count,
                count == spec.len(),
                count == part_count_spec(segment_ms as nat, part_ms as nat),
                spec == part_plan_spec(segment_ms as nat, part_ms as nat),
                part_ms > 0,
                r@ == spec.subrange(0, i as int),
            decreases count - i,
        {
            if i == count - 1 {
                assert(i * part_ms <= segment_ms) by (nonlinear_arith)
                    requires
                        i + 1 == count,
                        count as int == if segment_ms % part_ms == 0 {
                            (segment_ms / part_ms) as int
                        } else {
                            segment_ms / part_ms + 1
                        },
                        part_ms > 0,
                ;
                r.push(segment_ms - i * part_ms);
            } else {
                r.push(part_ms);
            }
            assert(r@[i as int] == spec[i as int]);
            i = i + 1;
            assert(r@ =~= spec.subrange(0, i as int));
        }
        assert(spec.subrange(0, count as int) =~= spec);
        r
    }
}

/// The HTTP front end's state; it holds nothing of its own.
pub struct M3U8Server {}

impl M3U8Server {
    pub fn new() -> (r: M3U8Server) {
        M3U8Server {  }
    }
}

/// The object key of a file uploaded from a stream directory: the file name
/// under `prefix`, or the bare name when there is no prefix.
pub fn directory_object_key(prefix: &str, file_name: &str) -> (r: String)
    ensures
        prefix@.len() == 0 ==> r@ == file_name@,
        prefix@.len() > 0 ==> r@ == prefix@ + "/"@ + file_name@,
{
    if prefix.unicode_len() == 0 {
        String::from_str(file_name)
    } else {
        let mut s = String::from_str(prefix);
        s.append("/");
        s.append(file_name);
        s
    }
}

/// The public URL of an object.
pub fn object_url(bucket: &str, region: &str, key: &str) -> (r: String)
    ensures
        r@ == "https://"@ + bucket@ + ".s3."@ + region@ + ".amazonaws.com/"@ + key@,
{
    let mut s = String::from_str("https://");
    s.append(bucket);
    s.append(".s3.");
    s.append(region);
    s.append(".amazonaws.com/");
    s.append(key);
    s
}

} // verus!
