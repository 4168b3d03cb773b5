use vstd::prelude::*;

verus! {

/// Tag type of an audio tag.
pub const TAG_AUDIO: u8 = 8;

/// Tag type of a video tag.
pub const TAG_VIDEO: u8 = 9;

/// Tag type of a script-data (metadata) tag.
pub const TAG_SCRIPT: u8 = 18;

/// Size of a tag header, the bytes in front of the payload.
pub const TAG_HEADER_LEN: usize = 11;

/// Largest payload that the 24-bit data-size field can describe.
pub const MAX_PAYLOAD_LEN: usize = 0xFF_FFFF;

pub open spec fn is_tag_kind(kind: u8) -> bool {
    kind == TAG_AUDIO || kind == TAG_VIDEO || kind == TAG_SCRIPT
}

/// The low 24 bits of `n`, most significant byte first.
pub open spec fn be24(n: u32) -> Seq<u8> {
    seq![(n >> 16u32) as u8, (n >> 8u32) as u8, n as u8]
}

/// `n` as four bytes, most significant first.
pub open spec fn be32(n: u32) -> Seq<u8> {
    seq![(n >> 24u32) as u8, (n >> 16u32) as u8, (n >> 8u32) as u8, n as u8]
}

pub open spec fn read_be24(b: Seq<u8>, at: int) -> u32 {
    ((b[at] as u32) << 16u32) | ((b[at + 1] as u32) << 8u32) | (b[at + 2] as u32)
}

pub open spec fn read_be32(b: Seq<u8>, at: int) -> u32 {
    ((b[at] as u32) << 24u32) | ((b[at + 1] as u32) << 16u32) | ((b[at + 2] as u32) << 8u32) | (
    b[at + 3] as u32)
}

/// The 13 bytes that open every FLV byte stream: signature, version 1,
/// audio+video flags, a data offset of 9 and a zero first previous-tag size.
pub open spec fn header_bytes() -> Seq<u8> {
    seq![0x46u8, 0x4Cu8, 0x56u8, 0x01u8, 0x05u8, 0u8, 0u8, 0u8, 9u8, 0u8, 0u8, 0u8, 0u8]
}

/// One complete FLV tag: header, payload and the trailing previous-tag size.
pub open spec fn tag_bytes(kind: u8, timestamp: u32, payload: Seq<u8>) -> Seq<u8> {
    seq![kind] + be24(payload.len() as u32) + be24(timestamp) + seq![(timestamp >> 24u32) as u8]
        + seq![0u8, 0u8, 0u8] + payload + be32((payload.len() + 11) as u32)
}

/// A decoded FLV tag.
pub struct FlvTag {
    pub kind: u8,
    pub timestamp: u32,
    pub payload: Vec<u8>,
}

/// What a well-formed tag decodes to, if `b` is exactly one tag.
pub open spec fn parse_spec(b: Seq<u8>) -> Option<(u8, u32, Seq<u8>)> {
    if b.len() < 15 {
        None
    } else {
        let size = read_be24(b, 1) as int;
        if b.len() != 15 + size || !is_tag_kind(b[0]) || b[8] != 0 || b[9] != 0 || b[10] != 0
            || read_be32(b, 11 + size) != (11 + size) as u32 {
            None
        } else {
            let ts = read_be24(b, 4) | ((b[7] as u32) << 24u32);
            Some((b[0], ts, b.subrange(11, 11 + size)))
        }
    }
}

/// The FLV file header.
pub fn header() -> (r: Vec<u8>)
    ensures
        r@ == header_bytes(),
{
    let r = vec![0x46u8, 0x4Cu8, 0x56u8, 0x01u8, 0x05u8, 0u8, 0u8, 0u8, 9u8, 0u8, 0u8, 0u8, 0u8];
    assert(r@ =~= header_bytes());
    r
}

/// Frames one payload as an FLV tag of the given type and timestamp
/// (milliseconds; the top byte goes to the extended-timestamp field).
pub fn tag(kind: u8, timestamp: u32, payload: &[u8]) -> (r: Vec<u8>)
    requires
        payload@.len() <= MAX_PAYLOAD_LEN,
    ensures
        r@ == tag_bytes(kind, timestamp, payload@),
        r@.len() == payload@.len() + 15,
{
    let size = payload.len() as u32;
    let mut r: Vec<u8> = Vec::with_capacity(payload.len() + 15);
    r.push(kind);
    r.push((size >> 16u32) as u8);
    r.push((size >> 8u32) as u8);
    r.push(size as u8);
    r.push((timestamp >> 16u32) as u8);
    r.push((timestamp >> 8u32) as u8);
    r.push(timestamp as u8);
    r.push((timestamp >> 24u32) as u8);
    r.push(0u8);
    r.push(0u8);
    r.push(0u8);
    let ghost head = r@;
    let mut i: usize = 0;
    while i < payload.len()
        invariant
            i <= payload@.len(),
            r@ == head + payload@.subrange(0, i as int),
            head.len() == 11,
        decreases payload@.len() - i,
    {
        r.push(payload[i]);
        i = i + 1;
        assert(r@ =~= head + payload@.subrange(0, i as int));
    }
    let prev = size + 11;
    r.push((prev >> 24u32) as u8);
    r.push((prev >> 16u32) as u8);
    r.push((prev >> 8u32) as u8);
    r.push(prev as u8);
    assert(payload@.subrange(0, payload@.len() as int) =~= payload@);
    assert(r@ =~= tag_bytes(kind, timestamp, payload@));
    r
}

/// Decodes one FLV tag that fills `b` exactly. Returns `None` unless the type is
/// audio, video or script data, the stream id is zero, and the data-size and
/// previous-tag-size fields agree with the length of `b`.
pub fn parse_tag(b: &[u8]) -> (r: Option<FlvTag>)
    ensures
        match parse_spec(b@) {
            None => r.is_none(),
            Some((k, t, p)) => r.is_some() && r->0.kind == k && r->0.timestamp == t
                && r->0.payload@ == p,
        },
{
    if b.len() < 15 {
        return None;
    }
    let (b1, b2, b3) = (b[1], b[2], b[3]);
    let size = ((b1 as u32) << 16u32) | ((b2 as u32) << 8u32) | (b3 as u32);
    assert(size == read_be24(b@, 1));
    assert(size <= 0xFF_FFFF) by (bit_vector)
        requires
            size == ((b1 as u32) << 16u32) | ((b2 as u32) << 8u32) | (b3 as u32),
    ;
    let total = size as usize + 15;
    if b.len() != total {
        return None;
    }
    let kind = b[0];
    if !(kind == TAG_AUDIO || kind == TAG_VIDEO || kind == TAG_SCRIPT) {
        return None;
    }
    if b[8] != 0 || b[9] != 0 || b[10] != 0 {
        return None;
    }
    let at = size as usize + 11;
    let prev = ((b[at] as u32) << 24u32) | ((b[at + 1] as u32) << 16u32) | ((b[at + 2] as u32)
        << 8u32) | (b[at + 3] as u32);
    assert(prev == read_be32(b@, at as int));
    if prev != size + 11 {
        return None;
    }
    let timestamp = (((b[4] as u32) << 16u32) | ((b[5] as u32) << 8u32) | (b[6] as u32)) | ((
    b[7] as u32) << 24u32);
    let mut payload: Vec<u8> = Vec::with_capacity(size as usize);
    let mut i: usize = 11;
    while i < at
        invariant
            11 <= i <= at,
            at + 4 == b@.len(),
            payload@ == b@.subrange(11, i as int),
        decreases at - i,
    {
        payload.push(b[i]);
        i = i + 1;
        assert(payload@ =~= b@.subrange(11, i as int));
    }
    Some(FlvTag { kind, timestamp, payload })
}

proof fn lemma_be24_round_trip(n: u32)
    requires
        n <= 0xFF_FFFF,
    ensures
        read_be24(be24(n), 0) == n,
{
    let b = be24(n);
    assert(b[0] == (n >> 16u32) as u8 && b[1] == (n >> 8u32) as u8 && b[2] == n as u8);
    assert(n <= 0xFF_FFFF ==> ((((n >> 16u32) as u8) as u32) << 16u32) | ((((n >> 8u32) as u8)
        as u32) << 8u32) | ((n as u8) as u32) == n) by (bit_vector);
}

proof fn lemma_be32_round_trip(n: u32)
    ensures
        read_be32(be32(n), 0) == n,
{
    let b = be32(n);
    assert(b[0] == (n >> 24u32) as u8 && b[1] == (n >> 16u32) as u8 && b[2] == (n >> 8u32) as u8
        && b[3] == n as u8);
    assert(((((n >> 24u32) as u8) as u32) << 24u32) | ((((n >> 16u32) as u8) as u32) << 16u32) | ((
    ((n >> 8u32) as u8) as u32) << 8u32) | ((n as u8) as u32) == n) by (bit_vector);
}

/// Framing round trip: parsing the bytes that `tag` produces for an audio,
/// video or script-data tag gives back its type, timestamp and payload, and
/// the trailing previous-tag-size field holds 11 plus the payload length.
pub proof fn lemma_tag_round_trip(kind: u8, timestamp: u32, payload: Seq<u8>)
    requires
        is_tag_kind(kind),
        payload.len() <= MAX_PAYLOAD_LEN,
    ensures
        parse_spec(tag_bytes(kind, timestamp, payload)) == Some((kind, timestamp, payload)),
        read_be32(tag_bytes(kind, timestamp, payload), 11 + payload.len() as int) == 11
            + payload.len(),
{
    let b = tag_bytes(kind, timestamp, payload);
    let n = payload.len() as int;
    let size = n as u32;
    let sz = be24(size);
    let ts = be24(timestamp);
    let pv = be32((n + 11) as u32);
    assert(b.len() == 15 + n);
    assert(b[0] == kind);
    assert(b[1] == sz[0] && b[2] == sz[1] && b[3] == sz[2]);
    assert(b[4] == ts[0] && b[5] == ts[1] && b[6] == ts[2]);
    assert(b[7] == (timestamp >> 24u32) as u8);
    assert(b[8] == 0 && b[9] == 0 && b[10] == 0);
    assert(b[11 + n] == pv[0] && b[12 + n] == pv[1] && b[13 + n] == pv[2] && b[14 + n] == pv[3]);
    lemma_be24_round_trip(size);
    assert(timestamp & 0xFF_FFFF <= 0xFF_FFFF) by (bit_vector);
    lemma_be24_round_trip(timestamp & 0xFF_FFFF);
    lemma_be32_round_trip((n + 11) as u32);
    assert(read_be24(b, 1) == read_be24(sz, 0));
    assert(read_be24(b, 1) == size);
    assert(read_be32(b, 11 + n) == read_be32(pv, 0));
    assert(((timestamp >> 16u32) as u8) == (((timestamp & 0xFF_FFFF) >> 16u32) as u8)
        && ((timestamp >> 8u32) as u8) == (((timestamp & 0xFF_FFFF) >> 8u32) as u8)
        && (timestamp as u8) == ((timestamp & 0xFF_FFFF) as u8)) by (bit_vector);
    assert(read_be24(b, 4) == read_be24(be24(timestamp & 0xFF_FFFF), 0));
    assert(read_be24(b, 4) == timestamp & 0xFF_FFFF);
    assert(((timestamp & 0xFF_FFFF) | ((((timestamp >> 24u32) as u8) as u32) << 24u32))
        == timestamp) by (bit_vector);
    assert(b.subrange(11, 11 + n as int) =~= payload);
}

} // verus!
