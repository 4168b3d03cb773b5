use pang_streaming::push::{push_content_type, resource_key, starts_with, LLHLSServerPush};

#[test]
fn push_types_follow_extensions() {
    assert_eq!(push_content_type("segment_1.m4s"), "video/iso.segment");
    assert_eq!(push_content_type("playlist.m3u8"), "application/vnd.apple.mpegurl");
    assert_eq!(push_content_type("init.mp4"), "video/mp4");
    assert_eq!(push_content_type("x.bin"), "application/octet-stream");
    assert_eq!(resource_key("s", "init.mp4"), "s/init.mp4");
    assert!(starts_with("s/a", "s/") && !starts_with("sa/a", "s/") && !starts_with("s", "s/"));
}

#[test]
fn push_store_keeps_and_expires_resources() {
    let mut p = LLHLSServerPush::new();
    p.push_segment("s", "segment_1.m4s", vec![1, 2], 0);
    p.push_playlist("s", "#EXTM3U\n", 50_000);
    p.push_segment("t", "segment_1.m4s", vec![3], 0);
    let seg = p.get_resource("s", "segment_1.m4s").unwrap();
    assert_eq!(seg.content_type, "video/iso.segment");
    assert_eq!(seg.data, vec![1, 2]);
    let pl = p.get_resource("s", "playlist.m3u8").unwrap();
    assert_eq!(pl.data, b"#EXTM3U\n".to_vec());
    p.cleanup_old_resources("s", 70_000);
    assert!(p.get_resource("s", "segment_1.m4s").is_none());
    assert!(p.get_resource("s", "playlist.m3u8").is_some());
    assert!(p.get_resource("t", "segment_1.m4s").is_some());
    p.remove_stream_resources("s");
    assert!(p.get_resource("s", "playlist.m3u8").is_none());
    assert!(p.get_resource("t", "segment_1.m4s").is_some());
}
