use vstd::prelude::*;

verus! {

/// Most uploads that may be in flight at once.
pub const MAX_CONCURRENT_UPLOADS: usize = 10;

/// Attempts per upload unless configured otherwise.
pub const DEFAULT_MAX_RETRIES: u32 = 3;

/// Base delay between attempts unless configured otherwise.
pub const DEFAULT_RETRY_DELAY_MS: u64 = 1000;

/// Read size used when a file is streamed, unless configured otherwise.
pub const DEFAULT_CHUNK_SIZE: usize = 1048576;

/// One file to mirror to the object store.
pub struct UploadTask {
    pub stream_key: String,
    pub file_path: String,
    pub s3_key: String,
    pub content_type: String,
}

/// Per-stream upload counters.
pub struct UploadStatus {
    pub stream_key: String,
    pub total_files: usize,
    pub uploaded_files: usize,
    pub failed_files: usize,
    pub is_complete: bool,
    /// Where the most recent successful upload of the stream is served.
    pub last_url: Option<String>,
}

/// What one upload ended in.
pub struct UploadResult {
    pub success: bool,
    pub s3_url: Option<String>,
    pub error_message: Option<String>,
}

/// Retry and transfer settings of the uploader.
pub struct S3UploadConfig {
    pub max_retries: u32,
    pub retry_delay_ms: u64,
    pub chunk_size: usize,
}

impl S3UploadConfig {
    /// Three attempts, a one-second base delay and 1 MiB chunks.
    pub fn standard() -> (r: S3UploadConfig)
        ensures
            r.max_retries == DEFAULT_MAX_RETRIES,
            r.retry_delay_ms == DEFAULT_RETRY_DELAY_MS,
            r.chunk_size == DEFAULT_CHUNK_SIZE,
    {
        S3UploadConfig {
            max_retries: DEFAULT_MAX_RETRIES,
            retry_delay_ms: DEFAULT_RETRY_DELAY_MS,
            chunk_size: DEFAULT_CHUNK_SIZE,
        }
    }
}

impl UploadResult {
    /// A successful upload, stored under `url`.
    pub fn succeeded(url: String) -> (r: UploadResult)
        ensures
            r.success,
            r.s3_url == Some(url),
            r.error_message.is_none(),
    {
        UploadResult { success: true, s3_url: Some(url), error_message: None }
    }

    /// A terminal failure, described by `message`.
    pub fn failed(message: String) -> (r: UploadResult)
        ensures
            !r.success,
            r.s3_url.is_none(),
            r.error_message == Some(message),
    {
        UploadResult { success: false, s3_url: None, error_message: Some(message) }
    }
}

impl UploadStatus {
    /// Counters are consistent: every finished upload was queued, and the
    /// stream is complete exactly when every queued upload has finished.
    pub open spec fn wf(&self) -> bool {
        &&& self.uploaded_files + self.failed_files <= self.total_files
        &&& self.is_complete <==> self.uploaded_files + self.failed_files == self.total_files
    }

    pub open spec fn finished(&self) -> nat {
        (self.uploaded_files + self.failed_files) as nat
    }

    /// Fresh counters for a stream; nothing queued, so nothing outstanding.
    pub fn new(stream_key: String) -> (r: UploadStatus)
        ensures
            r.stream_key == stream_key,
            r.total_files == 0,
            r.uploaded_files == 0,
            r.failed_files == 0,
            r.is_complete,
            r.last_url.is_none(),
            r.wf(),
    {
        UploadStatus {
            stream_key,
            total_files: 0,
            uploaded_files: 0,
            failed_files: 0,
            is_complete: true,
            last_url: None,
        }
    }

    /// Counts one more queued upload.
    pub fn record_queued(&mut self)
        requires
            old(self).wf(),
            old(self).total_files < usize::MAX,
        ensures
            final(self).wf(),
            final(self).stream_key == old(self).stream_key,
            final(self).total_files == old(self).total_files + 1,
            final(self).uploaded_files == old(self).uploaded_files,
            final(self).failed_files == old(self).failed_files,
            final(self).last_url == old(self).last_url,
    {
        self.total_files = self.total_files + 1;
        self.is_complete = self.uploaded_files + self.failed_files == self.total_files;
    }

    /// Counts the end of one queued upload, as uploaded or as failed; a
    /// successful upload's URL is recorded.
    pub fn record_result(&mut self, result: &UploadResult)
        requires
            old(self).wf(),
            old(self).uploaded_files + old(self).failed_files < old(self).total_files,
        ensures
            final(self).wf(),
            final(self).stream_key == old(self).stream_key,
            final(self).total_files == old(self).total_files,
            final(self).last_url == if result.success {
                result.s3_url
            } else {
                old(self).last_url
            },
            final(self).uploaded_files == old(self).uploaded_files + if result.success {
                1int
            } else {
                0int
            },
            final(self).failed_files == old(self).failed_files + if result.success {
                0int
            } else {
                1int
            },
    {
        let success = result.success;
        if success {
            self.uploaded_files = self.uploaded_files + 1;
            self.last_url = clone_url(&result.s3_url);
        } else {
            self.failed_files = self.failed_files + 1;
        }
        self.is_complete = self.uploaded_files + self.failed_files == self.total_files;
    }

    /// A copy of these counters.
    pub fn snapshot(&self) -> (r: UploadStatus)
        ensures
            r.stream_key@ == self.stream_key@,
            r.total_files == self.total_files,
            r.uploaded_files == self.uploaded_files,
            r.failed_files == self.failed_files,
            r.is_complete == self.is_complete,
            r.last_url == self.last_url,
    {
        UploadStatus {
            stream_key: self.stream_key.clone(),
            total_files: self.total_files,
            uploaded_files: self.uploaded_files,
            failed_files: self.failed_files,
            is_complete: self.is_complete,
            last_url: clone_url(&self.last_url),
        }
    }
}

fn clone_url(u: &Option<String>) -> (r: Option<String>)
    ensures
        r == *u,
{
    match u {
        Some(s) => Some(s.clone()),
        None => None,
    }
}

/// Why an upload attempt did not store the object.
#[derive(Clone, Copy, PartialEq, Eq, Structural, Debug)]
pub enum UploadError {
    /// The store refused or could not be reached; worth another try.
    Transient,
    /// Trying again cannot help, as when the local file is missing.
    Terminal,
}

/// What the uploader does after one attempt at a `put`.
pub enum RetryDecision {
    /// The object was stored.
    Uploaded,
    /// Sleep this many milliseconds, then try again.
    RetryAfter(u64),
    /// Out of attempts, or the error is terminal: the task fails.
    GiveUp,
}

/// The delay before the attempt after the `attempt`-th:
/// `retry_delay_ms * attempt`, held at `u64::MAX`.
pub open spec fn backoff_spec(retry_delay_ms: u64, attempt: u32) -> u64 {
    if retry_delay_ms * attempt <= u64::MAX {
        (retry_delay_ms * attempt) as u64
    } else {
        u64::MAX
    }
}

/// The retry policy. After the `attempt`-th try (counting from 1): a stored
/// object ends the task; a terminal error fails it at once; a transient error
/// is retried after `retry_delay_ms * attempt` milliseconds until
/// `max_retries` tries have been made.
pub fn after_attempt(config: &S3UploadConfig, attempt: u32, outcome: Result<(), UploadError>) -> (r:
    RetryDecision)
    requires
        attempt >= 1,
    ensures
        outcome is Ok ==> r is Uploaded,
        outcome == Err::<(), UploadError>(UploadError::Terminal) ==> r is GiveUp,
        outcome == Err::<(), UploadError>(UploadError::Transient) && attempt >= config.max_retries
            ==> r is GiveUp,
        outcome == Err::<(), UploadError>(UploadError::Transient) && attempt < config.max_retries
            ==> r == RetryDecision::RetryAfter(backoff_spec(config.retry_delay_ms, attempt)),
{
    match outcome {
        Ok(()) => RetryDecision::Uploaded,
        Err(UploadError::Terminal) => RetryDecision::GiveUp,
        Err(UploadError::Transient) => {
            if attempt >= config.max_retries {
                RetryDecision::GiveUp
            } else {
                let a = attempt as u64;
                let d = config.retry_delay_ms;
                if d <= u64::MAX / a {
                    assert(d * a <= u64::MAX) by (nonlinear_arith)
                        requires
                            d <= u64::MAX / a,
                            a >= 1,
                    ;
                    RetryDecision::RetryAfter(d * a)
                } else {
                    assert(d * a > u64::MAX) by (nonlinear_arith)
                        requires
                            d > u64::MAX / a,
                            a >= 1,
                    ;
                    RetryDecision::RetryAfter(u64::MAX)
                }
            }
        },
    }
}

/// The uploads in flight, oldest first, identified by ticket numbers.
pub struct InFlightWindow {
    pub tickets: Vec<u64>,
}

impl InFlightWindow {
    /// Between two received tasks there is room for one more upload.
    pub open spec fn wf(&self) -> bool {
        self.tickets@.len() < MAX_CONCURRENT_UPLOADS
    }

    pub fn new() -> (r: InFlightWindow)
        ensures
            r.wf(),
            r.tickets@.len() == 0,
    {
        InFlightWindow { tickets: Vec::new() }
    }

    /// Starts the upload `ticket`. When that brings the window to its bound,
    /// the oldest upload is handed back: the worker awaits it before it takes
    /// the next task.
    pub fn start(&mut self, ticket: u64) -> (r: Option<u64>)
        requires
            old(self).wf(),
        ensures
            final(self).wf(),
            old(self).tickets@.len() + 1 < MAX_CONCURRENT_UPLOADS ==> r.is_none()
                && final(self).tickets@ == old(self).tickets@.push(ticket),
            old(self).tickets@.len() + 1 == MAX_CONCURRENT_UPLOADS ==> r == Some(
                old(self).tickets@.push(ticket)[0],
            ) && final(self).tickets@ == old(self).tickets@.push(ticket).drop_first(),
    {
        self.tickets.push(ticket);
        if self.tickets.len() >= MAX_CONCURRENT_UPLOADS {
            let oldest = self.tickets.remove(0);
            assert(self.tickets@ =~= old(self).tickets@.push(ticket).drop_first());
            Some(oldest)
        } else {
            None
        }
    }

    /// The channel closed: every upload still in flight, oldest first, to be
    /// awaited before the worker ends.
    pub fn drain(&mut self) -> (r: Vec<u64>)
        ensures
            r@ == old(self).tickets@,
            final(self).tickets@.len() == 0,
            final(self).wf(),
    {
        let mut out: Vec<u64> = Vec::new();
        std::mem::swap(&mut out, &mut self.tickets);
        out
    }
}

/// Uploads in flight never exceed the bound: from any consistent window,
/// starting one more upload peaks at `MAX_CONCURRENT_UPLOADS` and leaves the
/// window consistent again.
pub proof fn lemma_concurrency_bound(w: InFlightWindow, ticket: u64)
    requires
        w.wf(),
    ensures
        w.tickets@.push(ticket).len() <= MAX_CONCURRENT_UPLOADS,
        w.tickets@.push(ticket).len() == MAX_CONCURRENT_UPLOADS ==> w.tickets@.push(
            ticket,
        ).drop_first().len() < MAX_CONCURRENT_UPLOADS,
{
}

/// Upload counters of every stream, one entry per stream key.
pub struct UploadStatusTable {
    pub entries: Vec<UploadStatus>,
}

impl UploadStatusTable {
    pub open spec fn has(&self, key: Seq<char>) -> bool {
        exists|i: int| 0 <= i < self.entries@.len() && #[trigger] self.entries@[i].stream_key@ == key
    }

    pub open spec fn index_of(&self, key: Seq<char>) -> int {
        choose|i: int| 0 <= i < self.entries@.len() && #[trigger] self.entries@[i].stream_key@ == key
    }

    /// Keys are unique and every entry's counters are consistent.
    pub open spec fn wf(&self) -> bool {
        &&& forall|i: int| 0 <= i < self.entries@.len() ==> #[trigger] self.entries@[i].wf()
        &&& forall|i: int, j: int|
            0 <= i < j < self.entries@.len() ==> #[trigger] self.entries@[i].stream_key@
                != #[trigger] self.entries@[j].stream_key@
    }

    pub fn new() -> (r: UploadStatusTable)
        ensures
            r.wf(),
            r.entries@.len() == 0,
    {
        UploadStatusTable { entries: Vec::new() }
    }

    fn find(&self, key: &String) -> (r: Option<usize>)
        requires
            self.wf(),
        ensures
            match r {
                Some(i) => i < self.entries@.len() && self.entries@[i as int].stream_key@ == key@
                    && i == self.index_of(key@),
                None => !self.has(key@),
            },
    {
        let mut i: usize = 0;
        while i < self.entries.len()
            invariant
                self.wf(),
                i <= self.entries@.len(),
                forall|j: int| 0 <= j < i ==> self.entries@[j].stream_key@ != key@,
            decreases self.entries@.len() - i,
        {
            if self.entries[i].stream_key == *key {
                let ghost k = self.index_of(key@);
                assert(self.has(key@));
                assert(k == i as int) by {
                    if k < i as int {
                    } else if k > i as int {
                        assert(self.entries@[i as int].stream_key@ != self.entries@[k].stream_key@);
                    }
                };
                return Some(i);
            }
            i = i + 1;
        }
        None
    }

    /// Counts one more queued upload for `key`, creating its entry if needed.
    pub fn record_queued(&mut self, key: &String)
        requires
            old(self).wf(),
            old(self).has(key@) ==> old(self).entries@[old(self).index_of(key@)].total_files
                < usize::MAX,
        ensures
            final(self).wf(),
            final(self).has(key@),
            old(self).has(key@) ==> {
                let i = old(self).index_of(key@);
                &&& final(self).entries@.len() == old(self).entries@.len()
                &&& final(self).entries@[i].total_files == old(self).entries@[i].total_files + 1
                &&& final(self).entries@[i].uploaded_files == old(self).entries@[i].uploaded_files
                &&& final(self).entries@[i].failed_files == old(self).entries@[i].failed_files
                &&& forall|j: int|
                    0 <= j < old(self).entries@.len() && j != i ==> final(self).entries@[j]
                        == old(self).entries@[j]
            },
            !old(self).has(key@) ==> {
                let n = old(self).entries@.len() as int;
                &&& final(self).entries@.len() == n + 1
                &&& final(self).entries@[n].stream_key@ == key@
                &&& final(self).entries@[n].total_files == 1
                &&& final(self).entries@[n].uploaded_files == 0
                &&& final(self).entries@[n].failed_files == 0
                &&& forall|j: int| 0 <= j < n ==> final(self).entries@[j] == old(self).entries@[j]
            },
    {
        match self.find(key) {
            Some(i) => {
                let mut e = self.entries.remove(i);
                e.record_queued();
                self.entries.insert(i, e);
                assert(self.entries@[i as int].stream_key@ == key@);
                assert(self.has(key@));
            },
            None => {
                let mut e = UploadStatus::new(key.clone());
                e.record_queued();
                self.entries.push(e);
                let n = self.entries.len() - 1;
                assert(self.entries@[n as int].stream_key@ == key@);
                assert(self.has(key@));
            },
        }
    }

    /// Counts the end of one queued upload for `key`. A key with no entry, or
    /// with nothing outstanding, is left as it is.
    pub fn record_result(&mut self, key: &String, result: &UploadResult)
        requires
            old(self).wf(),
        ensures
            final(self).wf(),
            final(self).entries@.len() == old(self).entries@.len(),
            forall|j: int|
                0 <= j < old(self).entries@.len() && !(old(self).has(key@) && j == old(
                    self,
                ).index_of(key@)) ==> final(self).entries@[j] == old(self).entries@[j],
            old(self).has(key@) ==> {
                let i = old(self).index_of(key@);
                let o = old(self).entries@[i];
                let f = final(self).entries@[i];
                &&& f.stream_key@ == key@
                &&& f.total_files == o.total_files
                &&& o.uploaded_files + o.failed_files < o.total_files ==> {
                    &&& f.last_url == if result.success {
                        result.s3_url
                    } else {
                        o.last_url
                    }
                    &&& f.uploaded_files == o.uploaded_files + if result.success {
                        1int
                    } else {
                        0int
                    }
                    &&& f.failed_files == o.failed_files + if result.success {
                        0int
                    } else {
                        1int
                    }
                }
                &&& o.uploaded_files + o.failed_files == o.total_files ==> f == o
            },
    {
        match self.find(key) {
            Some(i) => {
                assert(self.entries@[i as int].wf());
                if self.entries[i].uploaded_files + self.entries[i].failed_files
                    < self.entries[i].total_files {
                    let mut e = self.entries.remove(i);
                    e.record_result(result);
                    self.entries.insert(i, e);
                }
            },
            None => {},
        }
    }

    /// A copy of the counters of `key`, if it has any.
    pub fn get(&self, key: &String) -> (r: Option<UploadStatus>)
        requires
            self.wf(),
        ensures
            r.is_some() == self.has(key@),
            r.is_some() ==> {
                let e = self.entries@[self.index_of(key@)];
                let s = r->0;
                &&& s.stream_key@ == key@
                &&& s.total_files == e.total_files
                &&& s.uploaded_files == e.uploaded_files
                &&& s.failed_files == e.failed_files
                &&& s.is_complete == e.is_complete
                &&& s.last_url == e.last_url
            },
    {
        match self.find(key) {
            Some(i) => Some(self.entries[i].snapshot()),
            None => None,
        }
    }
}

/// For every stream with upload counters: `uploaded + failed <= queued`,
/// and when the two sides are equal the stream is complete.
pub proof fn lemma_status_counts(table: UploadStatusTable, i: int)
    requires
        table.wf(),
        0 <= i < table.entries@.len(),
    ensures
        table.entries@[i].uploaded_files + table.entries@[i].failed_files
            <= table.entries@[i].total_files,
        table.entries@[i].uploaded_files + table.entries@[i].failed_files
            == table.entries@[i].total_files ==> table.entries@[i].is_complete,
{
    assert(table.entries@[i].wf());
}

} // verus!
