use pang_streaming::index::{segment_latency, MediaTracker, SegmentIndex, SegmentInfo, SegmentMonitor};

fn seg(name: &str, size: u64) -> SegmentInfo {
    SegmentInfo { file_path: name.to_string(), duration_ms: 1000, size, created_at_ms: 0 }
}

#[test]
fn index_evicts_oldest_beyond_cap() {
    let mut idx = SegmentIndex::new(3);
    for i in 0..3 {
        assert!(idx.append(seg(&format!("s{}", i), 1)).is_empty());
    }
    let evicted = idx.append(seg("s3", 1));
    assert_eq!(evicted.len(), 1);
    assert_eq!(evicted[0].file_path, "s0");
    assert_eq!(idx.len(), 3);
    assert_eq!(idx.appended, 4);
    assert_eq!(idx.lookup("s3"), Some(2));
    assert_eq!(idx.lookup("s0"), None);
    let gone = idx.evict_until(1);
    assert_eq!(gone.iter().map(|s| s.file_path.as_str()).collect::<Vec<_>>(), vec!["s1", "s2"]);
    assert_eq!(idx.clear().len(), 1);
    assert_eq!(idx.len(), 0);
}

#[test]
fn index_with_zero_cap_keeps_nothing() {
    let mut idx = SegmentIndex::new(0);
    let evicted = idx.append(seg("only", 1));
    assert_eq!(evicted.len(), 1);
    assert_eq!(idx.len(), 0);
}

#[test]
fn index_count_matches_metrics() {
    let mut t = MediaTracker::new(0);
    t.open_stream("alice/t", 2, 0);
    for i in 0..5 {
        t.on_segment("alice/t", seg(&format!("segment_{}.m4s", i), 100), 1000 * (i + 1) as i64);
    }
    let idx = t.indexes.get("alice/t").unwrap();
    let metrics = t.metrics.get_stream_metrics("alice/t").unwrap();
    assert_eq!(idx.appended, metrics.total_segments);
    assert_eq!(metrics.total_segments, 5);
    assert_eq!(idx.len(), 2);
    assert_eq!(metrics.total_bytes, 500);
    assert!(t.on_segment("nobody", seg("x", 1), 0).is_empty());
    let left = t.close_stream("alice/t");
    assert_eq!(left.len(), 2);
    assert!(t.metrics.get_stream_metrics("alice/t").is_none());
}

#[test]
fn monitor_awaits_segments_in_sequence() {
    let mut t = MediaTracker::new(0);
    t.open_stream("s", 10, 0);
    let mut mon = SegmentMonitor::new();
    assert_eq!(mon.expected_file_name(), "segment_0.m4s");
    mon.on_segment_read(&mut t, "s", seg("segment_0.m4s", 10), 500);
    assert_eq!(mon.expected_file_name(), "segment_1.m4s");
    assert_eq!(t.metrics.get_stream_metrics("s").unwrap().total_segments, 1);
    assert_eq!(t.metrics.get_stream_metrics("s").unwrap().total_bytes, 10);
    let idx = t.indexes.get("s").unwrap();
    assert_eq!(idx.len(), 1);
    assert_eq!(idx.segments[0].file_path, "segment_0.m4s");
}

#[test]
fn segment_latency_is_clamped() {
    assert_eq!(segment_latency(1500, Some(1000)), 500);
    assert_eq!(segment_latency(1000, Some(1500)), 0);
    assert_eq!(segment_latency(1000, None), 0);
    assert_eq!(segment_latency(i64::MAX, Some(0)), u32::MAX);
}

#[test]
fn segment_of_one_stream_leaves_others_alone() {
    let mut t = MediaTracker::new(0);
    t.open_stream("a", 1, 0);
    t.open_stream("b", 1, 0);
    t.on_segment("b", seg("b0", 5), 10);
    let mut mon = SegmentMonitor::new();
    let evicted = mon.on_segment_read(&mut t, "a", seg("a0", 7), 20);
    assert!(evicted.is_empty());
    let evicted = mon.on_segment_read(&mut t, "a", seg("a1", 7), 30);
    assert_eq!(evicted.len(), 1);
    assert_eq!(evicted[0].file_path, "a0");
    let b = t.indexes.get("b").unwrap();
    assert_eq!((b.len(), b.appended, b.max_segments), (1, 1, 1));
    assert_eq!(t.metrics.get_stream_metrics("b").unwrap().total_bytes, 5);
    assert_eq!(t.indexes.get("a").unwrap().max_segments, 1);
}
