use vstd::prelude::*;
use vstd::string::*;
use crate::table::StreamTable;
use crate::watcher::{ends_with, has_suffix};

verus! {

/// Resources older than this are dropped by a cleanup.
pub const RESOURCE_TTL_MS: i64 = 60000;

/// A file kept in memory for pushing to players.
pub struct PushResource {
    pub uri: String,
    pub content_type: String,
    pub data: Vec<u8>,
    pub last_modified_ms: i64,
}

impl PushResource {
    pub fn snapshot(&self) -> (r: PushResource)
        ensures
            r.uri@ == self.uri@,
            r.content_type@ == self.content_type@,
            r.data@ == self.data@,
            r.last_modified_ms == self.last_modified_ms,
    {
        PushResource {
            uri: self.uri.clone(),
            content_type: self.content_type.clone(),
            data: self.data.clone(),
            last_modified_ms: self.last_modified_ms,
        }
    }
}

pub open spec fn has_prefix(s: Seq<char>, prefix: Seq<char>) -> bool {
    prefix.len() <= s.len() && s.subrange(0, prefix.len() as int) == prefix
}

/// `<stream>/<name>`: where a stream's resource is kept.
pub open spec fn resource_key_spec(stream_id: Seq<char>, name: Seq<char>) -> Seq<char> {
    stream_id + "/"@ + name
}

/// The content type a pushed file is served with.
pub open spec fn push_content_type_spec(name: Seq<char>) -> Seq<char> {
    if has_suffix(name, ".m4s"@) {
        "video/iso.segment"@
    } else if has_suffix(name, ".m3u8"@) {
        "application/vnd.apple.mpegurl"@
    } else if has_suffix(name, ".mp4"@) {
        "video/mp4"@
    } else {
        "application/octet-stream"@
    }
}

/// Whether `s` begins with `prefix`.
pub fn starts_with(s: &str, prefix: &str) -> (r: bool)
    ensures
        r == has_prefix(s@, prefix@),
{
    let n = s.unicode_len();
    let m = prefix.unicode_len();
    if m > n {
        return false;
    }
    let mut i: usize = 0;
    while i < m
        invariant
            n == s@.len(),
            m == prefix@.len(),
            m <= n,
            i <= m,
            forall|j: int| 0 <= j < i ==> s@[j] == prefix@[j],
        decreases m - i,
    {
        if s.get_char(i) != prefix.get_char(i) {
            assert(s@.subrange(0, m as int)[i as int] != prefix@[i as int]);
            return false;
        }
        i = i + 1;
    }
    assert(s@.subrange(0, m as int) =~= prefix@);
    true
}

pub fn resource_key(stream_id: &str, name: &str) -> (r: String)
    ensures
        r@ == resource_key_spec(stream_id@, name@),
{
    let mut k = String::from_str(stream_id);
    k.append("/");
    k.append(name);
    k
}

pub fn push_content_type(name: &str) -> (r: String)
    ensures
        r@ == push_content_type_spec(name@),
{
    if ends_with(name, ".m4s") {
        String::from_str("video/iso.segment")
    } else if ends_with(name, ".m3u8") {
        String::from_str("application/vnd.apple.mpegurl")
    } else if ends_with(name, ".mp4") {
        String::from_str("video/mp4")
    } else {
        String::from_str("application/octet-stream")
    }
}

/// Segments and playlists of every stream, held for HTTP/2 push.
pub struct LLHLSServerPush {
    pub resources: StreamTable<PushResource>,
}

impl LLHLSServerPush {
    pub open spec fn wf(&self) -> bool {
        self.resources.wf()
    }

    pub fn new() -> (r: LLHLSServerPush)
        ensures
            r.wf(),
            r.resources@ == Map::<Seq<char>, PushResource>::empty(),
    {
        LLHLSServerPush { resources: StreamTable::new() }
    }

    /// Stores a resource of a stream at `now_ms`, replacing one of the same
    /// name.
    pub fn register_resource(
        &mut self,
        stream_id: &str,
        resource_name: &str,
        content_type: &str,
        data: Vec<u8>,
        now_ms: i64,
    )
        requires
            old(self).wf(),
        ensures
            final(self).wf(),
            final(self).resources@.dom() == old(self).resources@.dom().insert(
                resource_key_spec(stream_id@, resource_name@),
            ),
            ({
                let r = final(self).resources@[resource_key_spec(stream_id@, resource_name@)];
                &&& r.uri@ == resource_name@
                &&& r.content_type@ == content_type@
                &&& r.data@ == data@
                &&& r.last_modified_ms == now_ms
            }),
            forall|k: Seq<char>|
                k != resource_key_spec(stream_id@, resource_name@) && old(self).resources@.dom().contains(k) ==> final(self).resources@[k] == old(self).resources@[k],
    {
        let key = resource_key(stream_id, resource_name);
        let resource = PushResource {
            uri: String::from_str(resource_name),
            content_type: String::from_str(content_type),
            data,
            last_modified_ms: now_ms,
        };
        self.resources.insert(key, resource);
    }

    /// Stores a media file, typed by its extension.
    pub fn push_segment(&mut self, stream_id: &str, segment_name: &str, segment_data: Vec<u8>, now_ms: i64)
        requires
            old(self).wf(),
        ensures
            final(self).wf(),
            final(self).resources@.dom() == old(self).resources@.dom().insert(
                resource_key_spec(stream_id@, segment_name@),
            ),
            ({
                let r = final(self).resources@[resource_key_spec(stream_id@, segment_name@)];
                &&& r.uri@ == segment_name@
                &&& r.content_type@ == push_content_type_spec(segment_name@)
                &&& r.data@ == segment_data@
                &&& r.last_modified_ms == now_ms
            }),
            forall|k: Seq<char>|
                k != resource_key_spec(stream_id@, segment_name@) && old(self).resources@.dom().contains(k)
                    ==> final(self).resources@[k] == old(self).resources@[k],
    {
        let content_type = push_content_type(segment_name);
        self.register_resource(stream_id, segment_name, content_type.as_str(), segment_data, now_ms);
    }

    /// Stores the stream's playlist text as `playlist.m3u8`.
    pub fn push_playlist(&mut self, stream_id: &str, playlist_content: &str, now_ms: i64)
        requires
            old(self).wf(),
        ensures
            final(self).wf(),
            final(self).resources@.dom() == old(self).resources@.dom().insert(
                resource_key_spec(stream_id@, "playlist.m3u8"@),
            ),
            ({
                let r = final(self).resources@[resource_key_spec(stream_id@, "playlist.m3u8"@)];
                &&& r.uri@ == "playlist.m3u8"@
                &&& r.content_type@ == "application/vnd.apple.mpegurl"@
                &&& r.data@ == playlist_content.spec_bytes()
                &&& r.last_modified_ms == now_ms
            }),
            forall|k: Seq<char>|
                k != resource_key_spec(stream_id@, "playlist.m3u8"@) && old(self).resources@.dom().contains(k)
                    ==> final(self).resources@[k] == old(self).resources@[k],
    {
        let data = playlist_content.as_bytes_vec();
        self.register_resource(
            stream_id,
            "playlist.m3u8",
            "application/vnd.apple.mpegurl",
            data,
            now_ms,
        );
    }

    /// A copy of a stream's resource.
    pub fn get_resource(&self, stream_id: &str, resource_name: &str) -> (r: Option<PushResource>)
        requires
            self.wf(),
        ensures
            r.is_some() == self.resources@.dom().contains(
                resource_key_spec(stream_id@, resource_name@),
            ),
            r.is_some() ==> ({
                let e = self.resources@[resource_key_spec(stream_id@, resource_name@)];
                &&& r->0.uri@ == e.uri@
                &&& r->0.content_type@ == e.content_type@
                &&& r->0.data@ == e.data@
                &&& r->0.last_modified_ms == e.last_modified_ms
            }),
    {
        let key = resource_key(stream_id, resource_name);
        match self.resources.get(key.as_str()) {
            Some(res) => Some(res.snapshot()),
            None => None,
        }
    }

    /// Drops the resources under `prefix` that were modified before
    /// `cutoff_ms` (all of them when `cutoff_ms` is `None`).
    fn drop_under(&mut self, prefix: &str, cutoff_ms: Option<i128>)
        requires
            old(self).wf(),
        ensures
            final(self).wf(),
            forall|k: Seq<char>| #[trigger]
                final(self).resources@.dom().contains(k) <==> (old(self).resources@.dom().contains(
                    k,
                ) && !(has_prefix(k, prefix@) && match cutoff_ms {
                    Some(c) => old(self).resources@[k].last_modified_ms < c,
                    None => true,
                })),
            forall|k: Seq<char>| #[trigger]
                final(self).resources@.dom().contains(k) ==> final(self).resources@[k] == old(self).resources@[k],
    {
        let keys = self.resources.key_list();
        let ghost o = self.resources@;
        let mut i: usize = 0;
        while i < keys.len()
            invariant
                self.wf(),
                i <= keys@.len(),
                forall|k: Seq<char>| #[trigger]
                    o.dom().contains(k) ==> exists|j: int| 0 <= j < keys@.len() && keys@[j]@ == k,
                forall|a: int, b: int|
                    0 <= a < b < keys@.len() ==> (#[trigger] keys@[a])@ != (#[trigger] keys@[b])@,
                forall|j: int| 0 <= j < keys@.len() ==> o.dom().contains(#[trigger] keys@[j]@),
                forall|k: Seq<char>| #[trigger]
                    self.resources@.dom().contains(k) <==> (o.dom().contains(k) && !((exists|j: int|
                        0 <= j < i && keys@[j]@ == k) && has_prefix(k, prefix@) && match cutoff_ms {
                        Some(c) => o[k].last_modified_ms < c,
                        None => true,
                    })),
                forall|k: Seq<char>| #[trigger]
                    self.resources@.dom().contains(k) ==> self.resources@[k] == o[k],
            decreases keys@.len() - i,
        {
            let key = keys[i].as_str();
            let ghost kv = keys@[i as int]@;
            let drop = if starts_with(key, prefix) {
                match cutoff_ms {
                    Some(c) => match self.resources.get(key) {
                        Some(res) => (res.last_modified_ms as i128) < c,
                        None => false,
                    },
                    None => true,
                }
            } else {
                false
            };
            let ghost before = self.resources@;
            if drop {
                let _ = self.resources.remove(key);
            }
            proof {
                assert forall|k: Seq<char>| #[trigger]
                    self.resources@.dom().contains(k) <==> (o.dom().contains(k) && !((exists|j: int|
                        0 <= j < i + 1 && keys@[j]@ == k) && has_prefix(k, prefix@) && match cutoff_ms {
                        Some(c) => o[k].last_modified_ms < c,
                        None => true,
                    })) by {
                    if k == kv {
                        assert(keys@[i as int]@ == k);
                    } else {
                        if exists|j: int| 0 <= j < i + 1 && keys@[j]@ == k {
                            let j = choose|j: int| 0 <= j < i + 1 && keys@[j]@ == k;
                            assert(j != i);
                        }
                    }
                };
            }
            i = i + 1;
        }
        proof {
            assert forall|k: Seq<char>| #[trigger]
                self.resources@.dom().contains(k) <==> (o.dom().contains(k) && !(has_prefix(k, prefix@)
                    && match cutoff_ms {
                    Some(c) => o[k].last_modified_ms < c,
                    None => true,
                })) by {
                if o.dom().contains(k) {
                    let j = choose|j: int| 0 <= j < keys@.len() && keys@[j]@ == k;
                    assert(0 <= j < i && keys@[j]@ == k);
                }
            };
        }
    }

    /// Drops a stream's resources not modified in the last minute before
    /// `now_ms`.
    pub fn cleanup_old_resources(&mut self, stream_id: &str, now_ms: i64)
        requires
            old(self).wf(),
        ensures
            final(self).wf(),
            forall|k: Seq<char>| #[trigger]
                final(self).resources@.dom().contains(k) <==> (old(self).resources@.dom().contains(
                    k,
                ) && !(has_prefix(k, stream_id@ + "/"@) && old(self).resources@[k].last_modified_ms
                    < now_ms - RESOURCE_TTL_MS)),
            forall|k: Seq<char>| #[trigger]
                final(self).resources@.dom().contains(k) ==> final(self).resources@[k] == old(self).resources@[k],
    {
        let prefix = resource_key(stream_id, "");
        proof {
            reveal_strlit("");
            assert(prefix@ =~= stream_id@ + "/"@);
        }
        self.drop_under(prefix.as_str(), Some((now_ms as i128) - (RESOURCE_TTL_MS as i128)));
    }

    /// Drops every resource of a stream.
    pub fn remove_stream_resources(&mut self, stream_id: &str)
        requires
            old(self).wf(),
        ensures
            final(self).wf(),
            forall|k: Seq<char>| #[trigger]
                final(self).resources@.dom().contains(k) <==> (old(self).resources@.dom().contains(
                    k,
                ) && !has_prefix(k, stream_id@ + "/"@)),
            forall|k: Seq<char>| #[trigger]
                final(self).resources@.dom().contains(k) ==> final(self).resources@[k] == old(self).resources@[k],
    {
        let prefix = resource_key(stream_id, "");
        proof {
            reveal_strlit("");
            assert(prefix@ =~= stream_id@ + "/"@);
        }
        self.drop_under(prefix.as_str(), None);
    }
}

} // verus!
