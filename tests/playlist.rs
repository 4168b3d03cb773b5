use pang_streaming::config::{BitrateVariant, HlsConfig};
use pang_streaming::hints::{create_part_hint, create_segment_hint, HintType, LLHLSPreloadHintManager};
use pang_streaming::playlist::{
    directory_object_key, object_url, LLHLSPlaylistGenerator, M3U8Server, PlaylistBuilder,
    PlaylistError, PlaylistType, Segment, SegmentProcessor, StreamState,
};
use pang_streaming::text::{decimal, padded, seconds};

fn state() -> StreamState {
    StreamState {
        stream_id: "s".to_string(),
        sequence_number: 3,
        target_duration_ms: 2500,
        segments: vec![],
        last_updated_ms: 0,
        playlist_type: PlaylistType::Event,
    }
}

#[test]
fn numbers_render_in_decimal() {
    assert_eq!(decimal(0), "0");
    assert_eq!(decimal(1_400_000), "1400000");
    assert_eq!(decimal(u64::MAX), u64::MAX.to_string());
    assert_eq!(padded(42, 6), "000042");
    assert_eq!(padded(1_234_567, 3), "1234567");
    assert_eq!(seconds(1500), "1.500");
    assert_eq!(seconds(42), "0.042");
}

#[test]
fn master_playlist_lists_variants() {
    let v = vec![
        BitrateVariant { bandwidth: 1_400_000, resolution: "1280x720".to_string(), name: "720p".to_string() },
        BitrateVariant { bandwidth: 800_000, resolution: "854x480".to_string(), name: "480p".to_string() },
    ];
    assert_eq!(
        PlaylistBuilder::build_master_playlist(&v),
        "#EXTM3U\n#EXT-X-VERSION:9\n#EXT-X-STREAM-INF:BANDWIDTH=1400000,RESOLUTION=1280x720\n720p.m3u8\n#EXT-X-STREAM-INF:BANDWIDTH=800000,RESOLUTION=854x480\n480p.m3u8\n"
    );
    assert_eq!(PlaylistBuilder::build_master_playlist(&[]), "#EXTM3U\n#EXT-X-VERSION:9\n");
}

#[test]
fn media_playlist_text() {
    let mut st = state();
    PlaylistBuilder::add_segment(&mut st, Segment { uri: "segment_1.m4s".to_string(), duration_ms: 1000, sequence: 1, is_independent: true }, 9);
    PlaylistBuilder::add_segment(&mut st, Segment { uri: "segment_2.m4s".to_string(), duration_ms: 1500, sequence: 2, is_independent: false }, 10);
    assert_eq!(st.sequence_number, 5);
    assert_eq!(st.last_updated_ms, 10);
    assert_eq!(
        PlaylistBuilder::build_basic_playlist(&st),
        "#EXTM3U\n#EXT-X-VERSION:9\n#EXT-X-TARGETDURATION:2\n#EXT-X-MEDIA-SEQUENCE:5\n#EXT-X-PLAYLIST-TYPE:EVENT\n#EXT-X-SERVER-CONTROL:CAN-BLOCK-RELOAD=YES,PART-HOLD-BACK=1.0,CAN-SKIP-UNTIL=0\n#EXT-X-INDEPENDENT-SEGMENTS\n#EXTINF:1.000,\nsegment_1.m4s\n#EXTINF:1.500,\nsegment_2.m4s\n"
    );
    PlaylistBuilder::cleanup_old_segments(&mut st, 1);
    assert_eq!(st.segments.len(), 1);
    assert_eq!(st.segments[0].uri, "segment_2.m4s");
}

#[test]
fn segment_and_part_names() {
    assert_eq!(SegmentProcessor::segment_file_name(42), "segment_000042.m4s");
    assert_eq!(SegmentProcessor::part_file_name(42, 7), "segment_000042_part_007.m4s");
    assert!(SegmentProcessor::is_independent_part(0) && SegmentProcessor::is_independent_part(20));
    assert!(!SegmentProcessor::is_independent_part(3));
    assert_eq!(SegmentProcessor::get_segment_path("out", "s", "init.mp4"), "out/s/init.mp4");
    assert_eq!(SegmentProcessor::plan_parts(2000, 500), vec![500, 500, 500, 500]);
    assert_eq!(SegmentProcessor::plan_parts(1200, 500), vec![500, 500, 200]);
    assert!(SegmentProcessor::plan_parts(0, 500).is_empty());
    let _server = M3U8Server::new();
}

#[test]
fn object_keys_and_urls() {
    assert_eq!(directory_object_key("", "a.m4s"), "a.m4s");
    assert_eq!(directory_object_key("hls_output/s", "a.m4s"), "hls_output/s/a.m4s");
    assert_eq!(object_url("b", "r", "k/x"), "https://b.s3.r.amazonaws.com/k/x");
}

#[test]
fn preload_hints_keep_latest_ten() {
    assert_eq!(create_part_hint("p.m4s", 200), "#EXT-X-PRELOAD-HINT:TYPE=PART,URI=p.m4s,DURATION=0.200");
    assert_eq!(create_segment_hint("s.m4s", 1000), "#EXT-X-PRELOAD-HINT:TYPE=SEGMENT,URI=s.m4s,DURATION=1.000");
    let mut m = LLHLSPreloadHintManager::new();
    assert!(m.generate_preload_hint_tag("s").is_none());
    for i in 0..12i64 {
        m.add_hint("s", format!("part_{}.m4s", i), HintType::Part, None, i * 10_000);
    }
    assert_eq!(m.hints.get("s").unwrap().len(), 10);
    assert_eq!(m.get_latest_hint("s").unwrap().uri, "part_11.m4s");
    assert_eq!(m.generate_preload_hint_tag("s").unwrap(), "#EXT-X-PRELOAD-HINT:TYPE=PART,URI=part_11.m4s");
    m.add_hint("t", "t.m4s".to_string(), HintType::Segment, Some(1000), 0);
    m.cleanup_old_hints("s", 120_000);
    let kept = m.hints.get("s").unwrap();
    assert_eq!(kept.len(), 2);
    assert_eq!((kept[0].uri.as_str(), kept[1].uri.as_str()), ("part_10.m4s", "part_11.m4s"));
    assert_eq!(m.hints.get("t").unwrap().len(), 1);
    m.remove_stream_hints("s");
    assert!(m.get_latest_hint("s").is_none());
}

#[test]
fn generator_keeps_capped_playlists_per_stream() {
    let hls = HlsConfig {
        save_dir: "out".to_string(),
        segment_duration_ms: 1000,
        part_duration_ms: 200,
        max_segments: 2,
        max_parts: 10,
        enable_server_push: false,
        enable_preload_hint: false,
        target_latency_ms: 1000,
    };
    let mut g = LLHLSPlaylistGenerator::new(&hls);
    assert_eq!(g.generate_playlist("s"), Err(PlaylistError::NotFound));
    g.create_stream("s".to_string(), 0);
    for i in 0..3u64 {
        g.add_segment("s", format!("segment_{}.m4s", i), 1000, i == 0, 10);
    }
    let text = g.generate_playlist("s").unwrap();
    assert_eq!(
        text,
        "#EXTM3U\n#EXT-X-VERSION:9\n#EXT-X-TARGETDURATION:1\n#EXT-X-MEDIA-SEQUENCE:3\n#EXT-X-PLAYLIST-TYPE:LIVE\n#EXT-X-SERVER-CONTROL:CAN-BLOCK-RELOAD=YES,PART-HOLD-BACK=1.0,CAN-SKIP-UNTIL=0\n#EXTINF:1.000,\nsegment_1.m4s\n#EXTINF:1.000,\nsegment_2.m4s\n"
    );
    assert_eq!(g.generate_master_playlist(&[]), "#EXTM3U\n#EXT-X-VERSION:9\n");
    g.remove_stream("s");
    assert!(g.generate_playlist("s").is_err());
}
