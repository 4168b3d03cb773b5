use pang_streaming::flv::{header, parse_tag, tag, TAG_AUDIO, TAG_SCRIPT, TAG_VIDEO};

#[test]
fn header_is_thirteen_bytes() {
    let h = header();
    assert_eq!(h, vec![0x46, 0x4C, 0x56, 0x01, 0x05, 0, 0, 0, 9, 0, 0, 0, 0]);
}

#[test]
fn tag_layout_is_exact() {
    let t = tag(TAG_VIDEO, 0x0102_0304, &[0xAA, 0xBB]);
    assert_eq!(
        t,
        vec![9, 0, 0, 2, 0x02, 0x03, 0x04, 0x01, 0, 0, 0, 0xAA, 0xBB, 0, 0, 0, 13]
    );
}

#[test]
fn tag_accepts_empty_payload() {
    let t = tag(TAG_AUDIO, 7, &[]);
    assert_eq!(t.len(), 15);
    assert_eq!(&t[11..], &[0, 0, 0, 11]);
}

#[test]
fn tag_round_trips_for_every_kind() {
    let payload: Vec<u8> = (0..300u32).map(|i| (i % 251) as u8).collect();
    for kind in [TAG_AUDIO, TAG_VIDEO, TAG_SCRIPT] {
        for ts in [0u32, 1, 0x00FF_FFFF, 0x0100_0000, u32::MAX] {
            let bytes = tag(kind, ts, &payload);
            let parsed = parse_tag(&bytes).expect("tag parses");
            assert_eq!(parsed.kind, kind);
            assert_eq!(parsed.timestamp, ts);
            assert_eq!(parsed.payload, payload);
            let n = bytes.len();
            let prev = u32::from_be_bytes([bytes[n - 4], bytes[n - 3], bytes[n - 2], bytes[n - 1]]);
            assert_eq!(prev as usize, 11 + payload.len());
        }
    }
}

#[test]
fn parse_rejects_malformed_tags() {
    assert!(parse_tag(&[]).is_none());
    let mut bad_kind = tag(TAG_AUDIO, 5, &[1, 2, 3]);
    bad_kind[0] = 7;
    assert!(parse_tag(&bad_kind).is_none());
    let mut bad_prev = tag(TAG_AUDIO, 5, &[1, 2, 3]);
    let n = bad_prev.len();
    bad_prev[n - 1] = 0;
    assert!(parse_tag(&bad_prev).is_none());
    let mut truncated = tag(TAG_VIDEO, 5, &[1, 2, 3]);
    truncated.pop();
    assert!(parse_tag(&truncated).is_none());
    let mut bad_stream = tag(TAG_VIDEO, 5, &[1]);
    bad_stream[9] = 1;
    assert!(parse_tag(&bad_stream).is_none());
}
