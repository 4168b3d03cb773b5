use vstd::prelude::*;
use vstd::string::*;
use crate::upload::UploadTask;

verus! {

/// A batch is flushed once this much time has passed since the last flush.
pub const FLUSH_INTERVAL_MS: u64 = 100;

/// A batch is flushed once it holds this many files.
pub const FLUSH_BATCH_SIZE: usize = 5;

pub open spec fn has_suffix(s: Seq<char>, suffix: Seq<char>) -> bool {
    suffix.len() <= s.len() && s.subrange(s.len() - suffix.len(), s.len() as int) == suffix
}

pub open spec fn is_playlist_name(name: Seq<char>) -> bool {
    has_suffix(name, ".m3u8"@)
}

/// Files the packager produces and the mirror uploads.
pub open spec fn is_artifact_name(name: Seq<char>) -> bool {
    has_suffix(name, ".ts"@) || has_suffix(name, ".m4s"@) || has_suffix(name, ".mp4"@)
        || has_suffix(name, ".m3u8"@)
}

/// `path` without the trailing separators and `.` components that do not
/// name anything: `a/b/` and `a/b/.` both name `b`.
pub open spec fn trim_trailing(path: Seq<char>) -> Seq<char>
    decreases path.len(),
{
    if path.len() > 0 && path.last() == '/' {
        trim_trailing(path.drop_last())
    } else if path.len() >= 2 && path.last() == '.' && path[path.len() - 2] == '/' {
        trim_trailing(path.drop_last())
    } else {
        path
    }
}

/// The name of the last component of a path.
pub open spec fn file_name_spec(path: Seq<char>) -> Seq<char> {
    basename_spec(trim_trailing(path))
}

/// The position of the last `.` in `s`, or -1.
pub open spec fn last_dot(s: Seq<char>) -> int
    decreases s.len(),
{
    if s.len() == 0 {
        -1
    } else if s.last() == '.' {
        s.len() - 1
    } else {
        last_dot(s.drop_last())
    }
}

/// The extension of a file name: what follows its last `.`, unless that `.`
/// opens the name (a hidden file such as `.m3u8` has none) or the name is
/// `..`.
pub open spec fn extension_spec(name: Seq<char>) -> Option<Seq<char>> {
    if name == ".."@ || last_dot(name) <= 0 {
        None
    } else {
        Some(name.subrange(last_dot(name) + 1, name.len() as int))
    }
}

/// The content type an object is stored with, by the extension of the
/// path's file name.
pub open spec fn content_type_spec(path: Seq<char>) -> Seq<char> {
    match extension_spec(file_name_spec(path)) {
        Some(e) => if e == "m3u8"@ {
            "application/vnd.apple.mpegurl"@
        } else if e == "m4s"@ || e == "mp4"@ {
            "video/mp4"@
        } else if e == "ts"@ {
            "video/mp2t"@
        } else if e == "json"@ {
            "application/json"@
        } else {
            "application/octet-stream"@
        },
        None => "application/octet-stream"@,
    }
}

/// The part of `path` after its last `/` (all of it when it has none).
pub open spec fn basename_spec(path: Seq<char>) -> Seq<char>
    decreases path.len(),
{
    if path.len() == 0 {
        path
    } else if path.last() == '/' {
        Seq::empty()
    } else {
        basename_spec(path.drop_last()).push(path.last())
    }
}

/// The object key of a file: the stream's prefix, a slash, the file's name.
pub open spec fn object_key_spec(prefix: Seq<char>, path: Seq<char>) -> Seq<char> {
    prefix + "/"@ + basename_spec(path)
}

/// A batch in upload order: playlists first, then everything else, each
/// group in the order in which it was observed.
pub open spec fn playlist_first(names: Seq<Seq<char>>) -> Seq<Seq<char>> {
    playlists_of(names) + media_of(names)
}

/// The playlists among `names`, in order.
pub open spec fn playlists_of(names: Seq<Seq<char>>) -> Seq<Seq<char>>
    decreases names.len(),
{
    if names.len() == 0 {
        names
    } else if is_playlist_name(names.last()) {
        playlists_of(names.drop_last()).push(names.last())
    } else {
        playlists_of(names.drop_last())
    }
}

/// The files among `names` that are not playlists, in order.
pub open spec fn media_of(names: Seq<Seq<char>>) -> Seq<Seq<char>>
    decreases names.len(),
{
    if names.len() == 0 {
        names
    } else if is_playlist_name(names.last()) {
        media_of(names.drop_last())
    } else {
        media_of(names.drop_last()).push(names.last())
    }
}

pub open spec fn views(v: Seq<String>) -> Seq<Seq<char>> {
    v.map_values(|s: String| s@)
}

/// Whether `s` ends with `suffix`.
pub fn ends_with(s: &str, suffix: &str) -> (r: bool)
    ensures
        r == has_suffix(s@, suffix@),
{
    let n = s.unicode_len();
    let m = suffix.unicode_len();
    if m > n {
        return false;
    }
    let mut i: usize = 0;
    while i < m
        invariant
            n == s@.len(),
            m == suffix@.len(),
            m <= n,
            i <= m,
            forall|j: int| 0 <= j < i ==> s@[n - m + j] == suffix@[j],
        decreases m - i,
    {
        if s.get_char(n - m + i) != suffix.get_char(i) {
            assert(s@.subrange(n - m, n as int)[i as int] != suffix@[i as int]);
            return false;
        }
        i = i + 1;
    }
    assert(s@.subrange(n - m, n as int) =~= suffix@);
    true
}

/// Whether a file name is a playlist.
pub fn is_playlist(name: &str) -> (r: bool)
    ensures
        r == is_playlist_name(name@),
{
    ends_with(name, ".m3u8")
}

/// Whether a file name is one the mirror uploads: `.ts`, `.m4s`, `.mp4` or
/// `.m3u8`.
pub fn is_artifact(name: &str) -> (r: bool)
    ensures
        r == is_artifact_name(name@),
{
    ends_with(name, ".ts") || ends_with(name, ".m4s") || ends_with(name, ".mp4") || ends_with(
        name,
        ".m3u8",
    )
}

proof fn lemma_trim_step(p: Seq<char>, k: int)
    requires
        0 < k <= p.len(),
        p[k - 1] == '/' || (k >= 2 && p[k - 1] == '.' && p[k - 2] == '/'),
    ensures
        trim_trailing(p.subrange(0, k)) == trim_trailing(p.subrange(0, k - 1)),
{
    assert(p.subrange(0, k).drop_last() =~= p.subrange(0, k - 1));
}

proof fn lemma_last_dot_prefix(s: Seq<char>, k: int)
    requires
        0 <= k <= s.len(),
        forall|j: int| k <= j < s.len() ==> s[j] != '.',
    ensures
        last_dot(s) == last_dot(s.subrange(0, k)),
    decreases s.len(),
{
    if k == s.len() {
        assert(s.subrange(0, k) =~= s);
    } else {
        let d = s.drop_last();
        assert forall|j: int| k <= j < d.len() implies d[j] != '.' by {
            assert(d[j] == s[j]);
        };
        lemma_last_dot_prefix(d, k);
        assert(d.subrange(0, k) =~= s.subrange(0, k));
    }
}

/// The file name of a path, as the last component after trailing
/// separators and `.` components are set aside.
pub fn file_name(path: &str) -> (r: String)
    ensures
        r@ == file_name_spec(path@),
{
    let n = path.unicode_len();
    let mut k: usize = n;
    assert(path@.subrange(0, n as int) =~= path@);
    while k > 0 && (path.get_char(k - 1) == '/' || (k >= 2 && path.get_char(k - 1) == '.'
        && path.get_char(k - 2) == '/'))
        invariant
            n == path@.len(),
            k <= n,
            trim_trailing(path@.subrange(0, k as int)) == trim_trailing(path@),
        decreases k,
    {
        proof {
            lemma_trim_step(path@, k as int);
        }
        k = k - 1;
    }
    let head = path.substring_char(0, k);
    basename(head)
}

/// The extension of a file name, if it has one.
pub fn extension(name: &str) -> (r: Option<String>)
    ensures
        match extension_spec(name@) {
            Some(e) => r is Some && r->0@ == e,
            None => r is None,
        },
{
    let dots = "..";
    proof {
        reveal_strlit("..");
    }
    if crate::table::str_eq(name, dots) {
        return None;
    }
    let n = name.unicode_len();
    let mut k: usize = n;
    while k > 0 && name.get_char(k - 1) != '.'
        invariant
            n == name@.len(),
            k <= n,
            forall|j: int| k <= j < n ==> name@[j] != '.',
        decreases k,
    {
        k = k - 1;
    }
    proof {
        lemma_last_dot_prefix(name@, k as int);
        if k > 0 {
            assert(name@.subrange(0, k as int).last() == '.');
        }
    }
    if k <= 1 {
        return None;
    }
    Some(String::from_str(name.substring_char(k, n)))
}

/// The content type an object is stored with, by the extension of the
/// path's file name.
pub fn content_type_for(path: &str) -> (r: String)
    ensures
        r@ == content_type_spec(path@),
{
    let name = file_name(path);
    match extension(name.as_str()) {
        Some(e) => {
            let e = e.as_str();
            proof {
                reveal_strlit("m3u8");
                reveal_strlit("m4s");
                reveal_strlit("mp4");
                reveal_strlit("ts");
                reveal_strlit("json");
            }
            if crate::table::str_eq(e, "m3u8") {
                String::from_str("application/vnd.apple.mpegurl")
            } else if crate::table::str_eq(e, "m4s") || crate::table::str_eq(e, "mp4") {
                String::from_str("video/mp4")
            } else if crate::table::str_eq(e, "ts") {
                String::from_str("video/mp2t")
            } else if crate::table::str_eq(e, "json") {
                String::from_str("application/json")
            } else {
                String::from_str("application/octet-stream")
            }
        },
        None => String::from_str("application/octet-stream"),
    }
}

proof fn lemma_basename_tail(path: Seq<char>, k: int)
    requires
        0 <= k <= path.len(),
        k == 0 || path[k - 1] == '/',
        forall|j: int| k <= j < path.len() ==> path[j] != '/',
    ensures
        basename_spec(path) == path.subrange(k, path.len() as int),
    decreases path.len(),
{
    if path.len() == 0 {
        assert(path.subrange(k, 0) =~= path);
    } else if k == path.len() {
        assert(path.subrange(k, path.len() as int) =~= Seq::<char>::empty());
    } else {
        let d = path.drop_last();
        assert forall|j: int| k <= j < d.len() implies d[j] != '/' by {
            assert(d[j] == path[j]);
        };
        if k > 0 {
            assert(d[k - 1] == path[k - 1]);
        }
        lemma_basename_tail(d, k);
        assert(path.subrange(k, path.len() as int) =~= d.subrange(k, d.len() as int).push(
            path.last(),
        ));
    }
}

/// The file name of a path: what follows its last `/`.
pub fn basename(path: &str) -> (r: String)
    ensures
        r@ == basename_spec(path@),
{
    let n = path.unicode_len();
    let mut k: usize = n;
    while k > 0 && path.get_char(k - 1) != '/'
        invariant
            n == path@.len(),
            k <= n,
            forall|j: int| k <= j < n ==> path@[j] != '/',
        decreases k,
    {
        k = k - 1;
    }
    proof {
        lemma_basename_tail(path@, k as int);
    }
    String::from_str(path.substring_char(k, n))
}

/// `prefix/name`, where `name` is the file name of `path`.
pub fn object_key(prefix: &str, path: &str) -> (r: String)
    ensures
        r@ == object_key_spec(prefix@, path@),
{
    let name = basename(path);
    let mut key = String::from_str(prefix);
    key.append("/");
    key.append(name.as_str());
    key
}

/// The object-store prefix of a stream: `hls_output/<stream>`.
pub fn stream_prefix(stream_id: &str) -> (r: String)
    ensures
        r@ == "hls_output/"@ + stream_id@,
{
    let mut p = String::from_str("hls_output/");
    p.append(stream_id);
    p
}

/// The flush rule of the watcher: flush when the interval has passed since
/// the last flush, or when enough files are pending.
pub fn should_flush(elapsed_ms: u64, pending: usize) -> (r: bool)
    ensures
        r == (elapsed_ms >= FLUSH_INTERVAL_MS || pending >= FLUSH_BATCH_SIZE),
{
    elapsed_ms >= FLUSH_INTERVAL_MS || pending >= FLUSH_BATCH_SIZE
}

/// Puts a batch in upload order: playlists first, then the other files, each
/// group in the order in which it was observed.
pub fn order_batch(paths: &Vec<String>) -> (r: Vec<String>)
    ensures
        views(r@) == playlist_first(views(paths@)),
{
    let ghost s = views(paths@);
    let mut playlists: Vec<String> = Vec::new();
    let mut media: Vec<String> = Vec::new();
    let mut i: usize = 0;
    while i < paths.len()
        invariant
            i <= paths@.len(),
            s == views(paths@),
            views(playlists@) == playlists_of(s.subrange(0, i as int)),
            views(media@) == media_of(s.subrange(0, i as int)),
        decreases paths@.len() - i,
    {
        let ghost pre = s.subrange(0, i as int);
        let ghost next = s.subrange(0, i as int + 1);
        assert(next.drop_last() =~= pre);
        assert(next.last() == paths@[i as int]@);
        let ghost old_p = playlists@;
        let ghost old_m = media@;
        let item = paths[i].clone();
        let is_pl = is_playlist(paths[i].as_str());
        assert(paths[i as int]@ == next.last());
        assert(is_pl == is_playlist_name(next.last()));
        if is_pl {
            playlists.push(item);
            assert(views(playlists@) =~= views(old_p).push(item@));
        } else {
            media.push(item);
            assert(views(media@) =~= views(old_m).push(item@));
        }
        assert(views(playlists@) == playlists_of(next));
        assert(views(media@) == media_of(next));
        i = i + 1;
    }
    assert(s.subrange(0, paths@.len() as int) =~= s);
    let mut j: usize = 0;
    let ghost base = views(playlists@);
    while j < media.len()
        invariant
            j <= media@.len(),
            views(playlists@) == base + views(media@).subrange(0, j as int),
        decreases media@.len() - j,
    {
        let ghost old_p = playlists@;
        playlists.push(media[j].clone());
        assert(views(playlists@) =~= views(old_p).push(media@[j as int]@));
        j = j + 1;
        assert(views(playlists@) =~= base + views(media@).subrange(0, j as int));
    }
    assert(views(media@).subrange(0, media@.len() as int) =~= views(media@));
    playlists
}

/// The kinds of filesystem event the watcher tells apart.
#[derive(Clone, Copy, PartialEq, Eq, Structural, Debug)]
pub enum FsEventKind {
    Create,
    Modify,
    Other,
}

/// Files observed since the last flush, each once, in observed order.
pub struct PendingBatch {
    pub paths: Vec<String>,
}

impl PendingBatch {
    /// No path is pending twice.
    pub open spec fn wf(&self) -> bool {
        forall|i: int, j: int|
            0 <= i < j < self.paths@.len() ==> #[trigger] self.paths@[i]@ != #[trigger] self.paths@[j]@
    }

    pub open spec fn contains(&self, path: Seq<char>) -> bool {
        exists|i: int| 0 <= i < self.paths@.len() && #[trigger] self.paths@[i]@ == path
    }

    pub fn new() -> (r: PendingBatch)
        ensures
            r.wf(),
            r.paths@.len() == 0,
    {
        PendingBatch { paths: Vec::new() }
    }

    pub fn len(&self) -> (r: usize)
        ensures
            r == self.paths@.len(),
    {
        self.paths.len()
    }

    /// Records one event on `path`: a created or modified artifact joins the
    /// batch unless it is already pending; anything else is ignored.
    pub fn observe(&mut self, kind: FsEventKind, path: String)
        requires
            old(self).wf(),
        ensures
            final(self).wf(),
            ((kind == FsEventKind::Create || kind == FsEventKind::Modify) && is_artifact_name(
                basename_spec(path@),
            ) && !old(self).contains(path@)) ==> final(self).paths@ == old(self).paths@.push(
                path,
            ),
            !((kind == FsEventKind::Create || kind == FsEventKind::Modify) && is_artifact_name(
                basename_spec(path@),
            ) && !old(self).contains(path@)) ==> final(self).paths@ == old(self).paths@,
    {
        if let FsEventKind::Other = kind {
            return;
        }
        let name = basename(path.as_str());
        if !is_artifact(name.as_str()) {
            return;
        }
        let mut i: usize = 0;
        while i < self.paths.len()
            invariant
                self.wf(),
                self.paths@ == old(self).paths@,
                i <= self.paths@.len(),
                forall|j: int| 0 <= j < i ==> self.paths@[j]@ != path@,
            decreases self.paths@.len() - i,
        {
            if self.paths[i] == path {
                return;
            }
            i = i + 1;
        }
        self.paths.push(path);
    }

    /// Empties the batch and returns it in upload order.
    pub fn take(&mut self) -> (r: Vec<String>)
        ensures
            views(r@) == playlist_first(views(old(self).paths@)),
            final(self).paths@.len() == 0,
            final(self).wf(),
    {
        let r = order_batch(&self.paths);
        self.paths = Vec::new();
        r
    }
}

/// The upload tasks of a batch that is already in upload order: one per
/// file, keyed under `prefix`, typed by extension.
pub fn batch_tasks(ordered: &Vec<String>, stream_key: &str, prefix: &str) -> (r: Vec<UploadTask>)
    ensures
        r@.len() == ordered@.len(),
        forall|i: int|
            0 <= i < r@.len() ==> {
                &&& (#[trigger] r@[i]).stream_key@ == stream_key@
                &&& r@[i].file_path@ == ordered@[i]@
                &&& r@[i].s3_key@ == object_key_spec(prefix@, ordered@[i]@)
                &&& r@[i].content_type@ == content_type_spec(ordered@[i]@)
            },
{
    let mut r: Vec<UploadTask> = Vec::new();
    let mut i: usize = 0;
    while i < ordered.len()
        invariant
            i <= ordered@.len(),
            r@.len() == i,
            forall|k: int|
                0 <= k < i ==> {
                    &&& (#[trigger] r@[k]).stream_key@ == stream_key@
                    &&& r@[k].file_path@ == ordered@[k]@
                    &&& r@[k].s3_key@ == object_key_spec(prefix@, ordered@[k]@)
                    &&& r@[k].content_type@ == content_type_spec(ordered@[k]@)
                },
        decreases ordered@.len() - i,
    {
        let path = ordered[i].as_str();
        let task = UploadTask {
            stream_key: String::from_str(stream_key),
            file_path: ordered[i].clone(),
            s3_key: object_key(prefix, path),
            content_type: content_type_for(path),
        };
        r.push(task);
        i = i + 1;
    }
    r
}

proof fn lemma_playlists_of_are_playlists(names: Seq<Seq<char>>, i: int)
    requires
        0 <= i < playlists_of(names).len(),
    ensures
        is_playlist_name(playlists_of(names)[i]),
    decreases names.len(),
{
    if names.len() > 0 {
        let d = names.drop_last();
        if i < playlists_of(d).len() {
            lemma_playlists_of_are_playlists(d, i);
        }
    }
}

proof fn lemma_media_of_are_media(names: Seq<Seq<char>>, i: int)
    requires
        0 <= i < media_of(names).len(),
    ensures
        !is_playlist_name(media_of(names)[i]),
    decreases names.len(),
{
    if names.len() > 0 {
        let d = names.drop_last();
        if i < media_of(d).len() {
            lemma_media_of_are_media(d, i);
        }
    }
}

/// Batch priority: in a batch put in upload order, every playlist comes
/// before every file that is not a playlist.
pub proof fn lemma_playlists_before_media(names: Seq<Seq<char>>, a: int, b: int)
    requires
        0 <= a < playlist_first(names).len(),
        0 <= b < playlist_first(names).len(),
        is_playlist_name(playlist_first(names)[a]),
        !is_playlist_name(playlist_first(names)[b]),
    ensures
        a < b,
{
    let head = playlists_of(names);
    let all = playlist_first(names);
    if a >= head.len() {
        lemma_media_of_are_media(names, a - head.len());
        assert(all[a] == media_of(names)[a - head.len()]);
    }
    if b < head.len() {
        lemma_playlists_of_are_playlists(names, b);
        assert(all[b] == head[b]);
    }
}

} // verus!
