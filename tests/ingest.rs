use pang_streaming::config::HlsConfig;
use pang_streaming::index::SegmentMonitor;
use pang_streaming::ingest::LiveOutputs;

fn hls(push: bool, hints: bool) -> HlsConfig {
    HlsConfig {
        save_dir: "out".to_string(),
        segment_duration_ms: 1000,
        part_duration_ms: 300,
        max_segments: 2,
        max_parts: 10,
        enable_server_push: push,
        enable_preload_hint: hints,
        target_latency_ms: 1000,
    }
}

#[test]
fn segment_file_feeds_every_output() {
    let cfg = hls(true, true);
    let mut out = LiveOutputs::new(&cfg, 0);
    out.open_stream("s", 2, 0);
    out.open_stream("other", 2, 0);
    let mut mon = SegmentMonitor::new();
    let evicted = out.on_segment_file(&mut mon, &cfg, "s", "out/s/segment_0.m4s".to_string(), vec![7; 100], 1000);
    assert!(evicted.is_empty());
    assert_eq!(mon.next_sequence, 1);
    let m = out.tracker.metrics.get_stream_metrics("s").unwrap();
    assert_eq!((m.total_segments, m.total_bytes, m.total_parts), (1, 100, 4));
    assert_eq!(m.average_part_duration_ms, 250);
    assert_eq!(out.tracker.indexes.get("s").unwrap().segments[0].file_path, "out/s/segment_0.m4s");
    assert_eq!(out.tracker.metrics.get_stream_metrics("other").unwrap().total_segments, 0);
    let playlist = out.playlists.generate_playlist("s").unwrap();
    assert!(playlist.ends_with("#EXTINF:1.000,\nsegment_0.m4s\n"));
    assert_eq!(out.push.get_resource("s", "segment_0.m4s").unwrap().data, vec![7; 100]);
    assert_eq!(out.push.get_resource("s", "playlist.m3u8").unwrap().data, playlist.into_bytes());
    assert_eq!(
        out.hints.generate_preload_hint_tag("s").unwrap(),
        "#EXT-X-PRELOAD-HINT:TYPE=PART,URI=segment_000000_part_003.m4s,DURATION=0.100"
    );
    assert_eq!(out.latency.measurements.get("s").unwrap().len(), 5);
    for i in 1..3u64 {
        out.on_segment_file(&mut mon, &cfg, "s", format!("out/s/segment_{i}.m4s"), vec![1], 1000 + i as i64);
    }
    let idx = out.tracker.indexes.get("s").unwrap();
    assert_eq!(idx.len(), 2);
    assert_eq!(idx.appended, 3);
    let left = out.close_stream("s");
    assert_eq!(left.len(), 2);
    assert!(out.push.get_resource("s", "segment_0.m4s").is_none());
    assert!(out.playlists.generate_playlist("s").is_err());
    assert!(out.tracker.metrics.get_stream_metrics("other").is_some());
}

#[test]
fn disabled_push_and_hints_stay_empty() {
    let cfg = hls(false, false);
    let mut out = LiveOutputs::new(&cfg, 0);
    out.open_stream("s", 5, 0);
    let mut mon = SegmentMonitor::new();
    out.on_segment_file(&mut mon, &cfg, "s", "x".to_string(), vec![1, 2], 10);
    assert!(out.push.get_resource("s", "segment_0.m4s").is_none());
    assert!(out.hints.get_latest_hint("s").is_none());
    assert_eq!(out.tracker.metrics.get_stream_metrics("s").unwrap().total_segments, 1);
}

#[test]
fn segment_of_untracked_stream_evicts_nothing() {
    let cfg = hls(false, false);
    let mut out = LiveOutputs::new(&cfg, 0);
    let mut mon = SegmentMonitor::new();
    assert!(out.on_segment_file(&mut mon, &cfg, "nobody", "x".to_string(), vec![], 0).is_empty());
}
