use vstd::prelude::*;
use vstd::string::*;
use crate::table::StreamTable;
use crate::text::{seconds, seconds_spec};

verus! {

/// Hints kept per stream; older ones are dropped first.
pub const MAX_HINTS: usize = 10;

/// Hints older than this are dropped by a cleanup.
pub const HINT_TTL_MS: i64 = 30000;

#[derive(Clone, Copy, PartialEq, Eq, Structural, Debug)]
pub enum HintType {
    Part,
    Segment,
}

/// A resource announced before it exists. Durations are milliseconds.
pub struct PreloadHint {
    pub uri: String,
    pub hint_type: HintType,
    pub duration_ms: Option<u64>,
    pub created_at_ms: i64,
}

impl PreloadHint {
    pub fn snapshot(&self) -> (r: PreloadHint)
        ensures
            r.uri@ == self.uri@,
            r.hint_type == self.hint_type,
            r.duration_ms == self.duration_ms,
            r.created_at_ms == self.created_at_ms,
    {
        PreloadHint {
            uri: self.uri.clone(),
            hint_type: self.hint_type,
            duration_ms: self.duration_ms,
            created_at_ms: self.created_at_ms,
        }
    }
}

/// The `#EXT-X-PRELOAD-HINT` tag of a hint.
pub open spec fn hint_tag_spec(uri: Seq<char>, hint_type: HintType, duration_ms: Option<u64>) -> Seq<
    char,
> {
    "#EXT-X-PRELOAD-HINT:TYPE="@ + (match hint_type {
        HintType::Part => "PART"@,
        HintType::Segment => "SEGMENT"@,
    }) + ",URI="@ + uri + match duration_ms {
        Some(d) => ",DURATION="@ + seconds_spec(d as nat),
        None => Seq::empty(),
    }
}

/// The tag of a hint.
pub fn hint_tag(uri: &str, hint_type: HintType, duration_ms: Option<u64>) -> (r: String)
    ensures
        r@ == hint_tag_spec(uri@, hint_type, duration_ms),
{
    let mut s = String::from_str("#EXT-X-PRELOAD-HINT:TYPE=");
    match hint_type {
        HintType::Part => s.append("PART"),
        HintType::Segment => s.append("SEGMENT"),
    }
    s.append(",URI=");
    s.append(uri);
    match duration_ms {
        Some(d) => {
            s.append(",DURATION=");
            let t = seconds(d);
            s.append(t.as_str());
        },
        None => {},
    }
    s
}

/// The hint tag of a part of `duration_ms`.
pub fn create_part_hint(part_uri: &str, duration_ms: u64) -> (r: String)
    ensures
        r@ == hint_tag_spec(part_uri@, HintType::Part, Some(duration_ms)),
{
    hint_tag(part_uri, HintType::Part, Some(duration_ms))
}

/// The hint tag of a segment of `duration_ms`.
pub fn create_segment_hint(segment_uri: &str, duration_ms: u64) -> (r: String)
    ensures
        r@ == hint_tag_spec(segment_uri@, HintType::Segment, Some(duration_ms)),
{
    hint_tag(segment_uri, HintType::Segment, Some(duration_ms))
}

/// What a hint holds, with its text as characters.
pub open spec fn hint_view(h: PreloadHint) -> (Seq<char>, HintType, Option<u64>, i64) {
    (h.uri@, h.hint_type, h.duration_ms, h.created_at_ms)
}

pub open spec fn hint_views(s: Seq<PreloadHint>) -> Seq<(Seq<char>, HintType, Option<u64>, i64)> {
    s.map_values(|h: PreloadHint| hint_view(h))
}

/// The hints of `s` made after `cutoff`, in order.
pub open spec fn recent_hints(s: Seq<PreloadHint>, cutoff: int) -> Seq<PreloadHint>
    decreases s.len(),
{
    if s.len() == 0 {
        s
    } else if s.last().created_at_ms > cutoff {
        recent_hints(s.drop_last(), cutoff).push(s.last())
    } else {
        recent_hints(s.drop_last(), cutoff)
    }
}

/// The preload hints of every stream, newest last.
pub struct LLHLSPreloadHintManager {
    pub hints: StreamTable<Vec<PreloadHint>>,
}

impl LLHLSPreloadHintManager {
    pub open spec fn wf(&self) -> bool {
        &&& self.hints.wf()
        &&& forall|k: Seq<char>| #[trigger]
            self.hints@.dom().contains(k) ==> self.hints@[k]@.len() <= MAX_HINTS
    }

    pub fn new() -> (r: LLHLSPreloadHintManager)
        ensures
            r.wf(),
            r.hints@.dom().len() == 0,
    {
        let r = LLHLSPreloadHintManager { hints: StreamTable::new() };
        proof {
            r.hints.lemma_dom_len();
        }
        r
    }

    /// Adds a hint made at `now_ms`; the oldest is dropped beyond `MAX_HINTS`.
    pub fn add_hint(
        &mut self,
        stream_id: &str,
        uri: String,
        hint_type: HintType,
        duration_ms: Option<u64>,
        now_ms: i64,
    )
        requires
            old(self).wf(),
        ensures
            final(self).wf(),
            final(self).hints@.dom() == old(self).hints@.dom().insert(stream_id@),
            ({
                let before = if old(self).hints@.dom().contains(stream_id@) {
                    old(self).hints@[stream_id@]@
                } else {
                    Seq::empty()
                };
                let all = before.push(
                    PreloadHint { uri, hint_type, duration_ms, created_at_ms: now_ms },
                );
                final(self).hints@[stream_id@]@ == if all.len() > MAX_HINTS {
                    all.drop_first()
                } else {
                    all
                }
            }),
            forall|k: Seq<char>|
                k != stream_id@ && old(self).hints@.dom().contains(k) ==> final(self).hints@[k]
                    == old(self).hints@[k],
    {
        let ghost o = self.hints@;
        let mut w = match self.hints.remove(stream_id) {
            Some(w) => w,
            None => Vec::new(),
        };
        let ghost before = w@;
        w.push(PreloadHint { uri, hint_type, duration_ms, created_at_ms: now_ms });
        if w.len() > MAX_HINTS {
            w.remove(0);
            assert(w@ =~= before.push(
                PreloadHint { uri, hint_type, duration_ms, created_at_ms: now_ms },
            ).drop_first());
        }
        self.hints.insert(String::from_str(stream_id), w);
        assert(self.hints@.dom() =~= o.dom().insert(stream_id@));
    }

    /// The newest hint of a stream.
    pub fn get_latest_hint(&self, stream_id: &str) -> (r: Option<PreloadHint>)
        requires
            self.wf(),
        ensures
            r.is_some() <==> (self.hints@.dom().contains(stream_id@)
                && self.hints@[stream_id@]@.len() > 0),
            r.is_some() ==> ({
                let w = self.hints@[stream_id@]@;
                let h = w[w.len() - 1];
                &&& r->0.uri@ == h.uri@
                &&& r->0.hint_type == h.hint_type
                &&& r->0.duration_ms == h.duration_ms
                &&& r->0.created_at_ms == h.created_at_ms
            }),
    {
        match self.hints.get(stream_id) {
            Some(w) => {
                if w.len() == 0 {
                    None
                } else {
                    Some(w[w.len() - 1].snapshot())
                }
            },
            None => None,
        }
    }

    /// The tag announcing the newest hint of a stream.
    pub fn generate_preload_hint_tag(&self, stream_id: &str) -> (r: Option<String>)
        requires
            self.wf(),
        ensures
            r.is_some() <==> (self.hints@.dom().contains(stream_id@)
                && self.hints@[stream_id@]@.len() > 0),
            r.is_some() ==> ({
                let w = self.hints@[stream_id@]@;
                let h = w[w.len() - 1];
                r->0@ == hint_tag_spec(h.uri@, h.hint_type, h.duration_ms)
            }),
    {
        match self.get_latest_hint(stream_id) {
            Some(h) => Some(hint_tag(h.uri.as_str(), h.hint_type, h.duration_ms)),
            None => None,
        }
    }

    /// Drops the hints of a stream made more than `HINT_TTL_MS` before
    /// `now_ms`; the others stay, in order.
    pub fn cleanup_old_hints(&mut self, stream_id: &str, now_ms: i64)
        requires
            old(self).wf(),
        ensures
            final(self).wf(),
            final(self).hints@.dom() == old(self).hints@.dom(),
            old(self).hints@.dom().contains(stream_id@) ==> hint_views(final(self).hints@[stream_id@]@)
                == hint_views(recent_hints(old(self).hints@[stream_id@]@, now_ms - HINT_TTL_MS)),
            forall|k: Seq<char>|
                k != stream_id@ && old(self).hints@.dom().contains(k) ==> final(self).hints@[k]
                    == old(self).hints@[k],
    {
        let ghost o = self.hints@;
        match self.hints.remove(stream_id) {
            Some(w) => {
                assert(o.dom().contains(stream_id@));
                let cutoff = (now_ms as i128) - (HINT_TTL_MS as i128);
                let mut kept: Vec<PreloadHint> = Vec::new();
                let mut i: usize = 0;
                while i < w.len()
                    invariant
                        i <= w@.len(),
                        w@.len() <= MAX_HINTS,
                        kept@.len() <= i,
                        cutoff == now_ms - HINT_TTL_MS,
                        hint_views(kept@) == hint_views(recent_hints(w@.subrange(0, i as int), cutoff as int)),
                    decreases w@.len() - i,
                {
                    let ghost pre = w@.subrange(0, i as int);
                    assert(w@.subrange(0, i as int + 1).drop_last() =~= pre);
                    let ghost before = kept@;
                    if (w[i].created_at_ms as i128) > cutoff {
                        kept.push(w[i].snapshot());
                        assert(hint_views(kept@) =~= hint_views(before).push(hint_view(w@[i as int])));
                        assert(hint_views(recent_hints(pre, cutoff as int).push(w@[i as int])) =~= hint_views(recent_hints(pre, cutoff as int)).push(hint_view(w@[i as int])));
                    }
                    i = i + 1;
                }
                assert(w@.subrange(0, w@.len() as int) =~= w@);
                self.hints.insert(String::from_str(stream_id), kept);
                assert(self.hints@.dom() =~= o.dom());
            },
            None => {
                assert(self.hints@ =~= o);
            },
        }
    }

    /// Forgets every hint of a stream.
    pub fn remove_stream_hints(&mut self, stream_id: &str)
        requires
            old(self).wf(),
        ensures
            final(self).wf(),
            final(self).hints@ == old(self).hints@.remove(stream_id@),
    {
        let _ = self.hints.remove(stream_id);
    }
}

} // verus!
