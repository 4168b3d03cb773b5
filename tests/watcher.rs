use pang_streaming::watcher::{
    basename, batch_tasks, content_type_for, ends_with, extension, file_name, is_artifact, is_playlist, object_key,
    order_batch, should_flush, stream_prefix, FsEventKind, PendingBatch,
};

#[test]
fn content_types_follow_extensions() {
    assert_eq!(content_type_for("playlist.m3u8"), "application/vnd.apple.mpegurl");
    assert_eq!(content_type_for("segment_1.m4s"), "video/mp4");
    assert_eq!(content_type_for("init.mp4"), "video/mp4");
    assert_eq!(content_type_for("old.ts"), "video/mp2t");
    assert_eq!(content_type_for("meta.json"), "application/json");
    assert_eq!(content_type_for("notes.txt"), "application/octet-stream");
}

#[test]
fn artifact_filter_accepts_hls_files_only() {
    assert!(is_artifact("a.ts") && is_artifact("a.m4s") && is_artifact("a.mp4"));
    assert!(is_artifact("a.m3u8"));
    assert!(!is_artifact("a.tmp") && !is_artifact("m3u8"));
    assert!(is_playlist("x/playlist.m3u8"));
    assert!(!is_playlist("segment_1.m4s"));
    assert!(ends_with("abc", "bc") && !ends_with("bc", "abc") && ends_with("abc", ""));
}

#[test]
fn keys_are_prefix_slash_basename() {
    assert_eq!(basename("out/alice/segment_3.m4s"), "segment_3.m4s");
    assert_eq!(basename("plain"), "plain");
    assert_eq!(basename("dir/"), "");
    let prefix = stream_prefix("alice/2024-01-01T00:00:00Z");
    assert_eq!(prefix, "hls_output/alice/2024-01-01T00:00:00Z");
    assert_eq!(
        object_key(&prefix, "save/alice/2024-01-01T00:00:00Z/init.mp4"),
        "hls_output/alice/2024-01-01T00:00:00Z/init.mp4"
    );
}

#[test]
fn flush_after_interval_or_five_files() {
    assert!(!should_flush(99, 4));
    assert!(should_flush(100, 0));
    assert!(should_flush(0, 5));
}

#[test]
fn batch_delivers_playlist_first() {
    let mut batch = PendingBatch::new();
    batch.observe(FsEventKind::Create, "out/s/segment_1.m4s".to_string());
    batch.observe(FsEventKind::Create, "out/s/playlist.m3u8".to_string());
    let ordered = batch.take();
    assert_eq!(ordered, vec!["out/s/playlist.m3u8".to_string(), "out/s/segment_1.m4s".to_string()]);
    assert_eq!(batch.len(), 0);
    let tasks = batch_tasks(&ordered, "s", "hls_output/s");
    assert_eq!(tasks.len(), 2);
    assert_eq!(tasks[0].s3_key, "hls_output/s/playlist.m3u8");
    assert_eq!(tasks[0].content_type, "application/vnd.apple.mpegurl");
    assert_eq!(tasks[0].file_path, "out/s/playlist.m3u8");
    assert_eq!(tasks[0].stream_key, "s");
    assert_eq!(tasks[1].s3_key, "hls_output/s/segment_1.m4s");
    assert_eq!(tasks[1].content_type, "video/mp4");
}

#[test]
fn ordering_keeps_observed_order_within_groups() {
    let paths: Vec<String> = ["b.m4s", "a.m3u8", "c.m4s", "d.m3u8", "e.mp4"]
        .iter()
        .map(|s| s.to_string())
        .collect();
    let ordered = order_batch(&paths);
    assert_eq!(ordered, vec!["a.m3u8", "d.m3u8", "b.m4s", "c.m4s", "e.mp4"]);
}

#[test]
fn batch_deduplicates_and_filters_events() {
    let mut batch = PendingBatch::new();
    batch.observe(FsEventKind::Create, "d/segment_1.m4s".to_string());
    batch.observe(FsEventKind::Modify, "d/segment_1.m4s".to_string());
    batch.observe(FsEventKind::Other, "d/segment_2.m4s".to_string());
    batch.observe(FsEventKind::Create, "d/segment_2.m4s.tmp".to_string());
    assert_eq!(batch.len(), 1);
}

#[test]
fn content_type_uses_the_file_name_extension() {
    assert_eq!(content_type_for("/x/.m3u8"), "application/octet-stream");
    assert_eq!(content_type_for("dir/playlist.m3u8/"), "application/vnd.apple.mpegurl");
    assert_eq!(content_type_for("dir/seg.ts/."), "video/mp2t");
    assert_eq!(content_type_for("a/..ts"), "video/mp2t");
    assert_eq!(content_type_for("a/.."), "application/octet-stream");
    assert_eq!(content_type_for("archive.tar.json"), "application/json");
    assert_eq!(content_type_for("x.m3u8.tmp"), "application/octet-stream");
    assert_eq!(content_type_for("noext"), "application/octet-stream");
    assert_eq!(content_type_for("trailing."), "application/octet-stream");
    assert_eq!(file_name("a/b//"), "b");
    assert_eq!(extension(".hidden"), None);
    assert_eq!(extension("a.b.c"), Some("c".to_string()));
    for p in ["/x/.m3u8", "dir/playlist.m3u8/", "dir/seg.ts/.", "a/..ts", "a/..", "x.M4S", "b.mp4"] {
        let expected = match std::path::Path::new(p).extension().and_then(|e| e.to_str()) {
            Some("m3u8") => "application/vnd.apple.mpegurl",
            Some("m4s") | Some("mp4") => "video/mp4",
            Some("ts") => "video/mp2t",
            Some("json") => "application/json",
            _ => "application/octet-stream",
        };
        assert_eq!(content_type_for(p), expected, "{p}");
    }
}
