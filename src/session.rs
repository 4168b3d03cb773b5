use vstd::prelude::*;
use vstd::string::*;
use crate::auth::{AuthError, StreamUserResponse, stream_id_spec};
use crate::flv::{
    header, header_bytes, lemma_tag_round_trip, parse_spec, read_be32, tag, tag_bytes, MAX_PAYLOAD_LEN,
    TAG_AUDIO, TAG_SCRIPT, TAG_VIDEO,
};
use crate::table::StreamTable;

verus! {

/// Why a session step was refused.
#[derive(Clone, Copy, PartialEq, Eq, Structural, Debug)]
pub enum SessionError {
    /// The request was malformed (an empty key) or came
    /// at the wrong time.
    InvalidParam,
    /// The identity service did not accept the key.
    Auth(AuthError),
    /// The packager could not be started.
    Spawn,
    /// No such stream is registered.
    NotFound,
    /// The stream is already registered.
    AlreadyExists,
}

/// The three kinds of media message a publisher sends.
#[derive(Clone, Copy, PartialEq, Eq, Structural, Debug)]
pub enum MediaKind {
    Video,
    Audio,
    Metadata,
}

pub open spec fn tag_kind_spec(kind: MediaKind) -> u8 {
    match kind {
        MediaKind::Video => TAG_VIDEO,
        MediaKind::Audio => TAG_AUDIO,
        MediaKind::Metadata => TAG_SCRIPT,
    }
}

/// The FLV tag type of a media kind.
pub fn tag_kind(kind: MediaKind) -> (r: u8)
    ensures
        r == tag_kind_spec(kind),
{
    match kind {
        MediaKind::Video => TAG_VIDEO,
        MediaKind::Audio => TAG_AUDIO,
        MediaKind::Metadata => TAG_SCRIPT,
    }
}

/// Where one publishing session stands.
pub enum SessionState {
    /// Nothing is being published.
    Idle,
    /// The key is with the identity service.
    Authenticating { session_id: u32 },
    /// The key was accepted; the packager is being started.
    Starting { session_id: u32, stream_id: String },
    /// Media is framed and forwarded to the packager.
    Publishing { session_id: u32, stream_id: String },
    /// The packager's input broke; media is dropped until unpublish.
    Draining { session_id: u32, stream_id: String },
}

/// The state machine of one publishing connection. The caller performs what
/// each step asks for (authenticate, start the packager, write bytes, stop)
/// and reports the outcome back.
pub struct RtmpSessionHandler {
    pub state: SessionState,
}

impl RtmpSessionHandler {
    pub fn new() -> (r: RtmpSessionHandler)
        ensures
            r.state is Idle,
    {
        RtmpSessionHandler { state: SessionState::Idle }
    }

    /// A publish request. An empty key is rejected with
    /// `InvalidParam`, as is a request while another publish is under way;
    /// the state is then unchanged. Otherwise the key goes to the identity
    /// service next.
    pub fn on_publish(&mut self, session_id: u32, app_name: &str, stream_key: &str) -> (r: Result<
        (),
        SessionError,
    >)
        ensures
            (old(self).state is Idle && stream_key@.len() > 0) ==> r is Ok
                && final(self).state == (SessionState::Authenticating { session_id }),
            !(old(self).state is Idle && stream_key@.len() > 0) ==> r == Err::<
                (),
                SessionError,
            >(SessionError::InvalidParam) && final(self).state == old(self).state,
    {
        let idle = match self.state {
            SessionState::Idle => true,
            _ => false,
        };
        if !idle || stream_key.unicode_len() == 0 {
            return Err(SessionError::InvalidParam);
        }
        self.state = SessionState::Authenticating { session_id };
        Ok(())
    }

    /// The identity service's answer. On success the canonical stream id is
    /// returned and the packager is to be started for it; on failure the
    /// publish is rejected and the session is idle again. Out of turn, the
    /// answer is refused and nothing changes.
    pub fn on_auth_result(&mut self, result: Result<StreamUserResponse, AuthError>) -> (r: Result<
        String,
        SessionError,
    >)
        ensures
            match old(self).state {
                SessionState::Authenticating { session_id } => match result {
                    Ok(user) => r is Ok && r->Ok_0@ == stream_id_spec(
                        user.nickname@,
                        user.created_at@,
                    ) && (final(self).state matches SessionState::Starting { session_id: s, stream_id }
                        && s == session_id && stream_id@ == r->Ok_0@),
                    Err(e) => r == Err::<String, SessionError>(SessionError::Auth(e))
                        && final(self).state is Idle,
                },
                _ => r == Err::<String, SessionError>(SessionError::InvalidParam) && final(self).state == old(self).state,
            },
    {
        let session_id = match self.state {
            SessionState::Authenticating { session_id } => session_id,
            _ => {
                return Err(SessionError::InvalidParam);
            },
        };
        match result {
            Ok(user) => {
                let id = user.stream_id();
                let r = id.clone();
                self.state = SessionState::Starting { session_id, stream_id: id };
                Ok(r)
            },
            Err(e) => {
                self.state = SessionState::Idle;
                Err(SessionError::Auth(e))
            },
        }
    }

    /// Whether the packager started. If it did, the FLV header is returned to
    /// be written first and the session publishes; if not, the publish is
    /// rejected with `Spawn` and the session is idle again.
    pub fn on_packager_started(&mut self, started: bool) -> (r: Result<Vec<u8>, SessionError>)
        ensures
            match old(self).state {
                SessionState::Starting { session_id, stream_id } => if started {
                    r is Ok && r->Ok_0@ == header_bytes() && final(self).state == (
                    SessionState::Publishing { session_id, stream_id })
                } else {
                    r == Err::<Vec<u8>, SessionError>(SessionError::Spawn) && final(self).state is Idle
                },
                _ => r == Err::<Vec<u8>, SessionError>(SessionError::InvalidParam) && final(self).state == old(self).state,
            },
    {
        let mut st = SessionState::Idle;
        std::mem::swap(&mut st, &mut self.state);
        match st {
            SessionState::Starting { session_id, stream_id } => {
                if started {
                    self.state = SessionState::Publishing { session_id, stream_id };
                    Ok(header())
                } else {
                    Err(SessionError::Spawn)
                }
            },
            other => {
                self.state = other;
                Err(SessionError::InvalidParam)
            },
        }
    }

    /// A media message. While publishing it is framed as one FLV tag, to be
    /// written to the packager; otherwise (or when the payload is too large
    /// to frame) it is dropped silently.
    pub fn on_data(&self, kind: MediaKind, timestamp: u32, payload: &[u8]) -> (r: Option<Vec<u8>>)
        ensures
            (self.state is Publishing && payload@.len() <= MAX_PAYLOAD_LEN) ==> r is Some
                && r->0@ == tag_bytes(tag_kind_spec(kind), timestamp, payload@) && parse_spec(r->0@)
                == Some((tag_kind_spec(kind), timestamp, payload@)) && read_be32(
                r->0@,
                11 + payload@.len() as int,
            ) == 11 + payload@.len(),
            !(self.state is Publishing && payload@.len() <= MAX_PAYLOAD_LEN) ==> r is None,
    {
        match self.state {
            SessionState::Publishing { .. } => {
                if payload.len() <= MAX_PAYLOAD_LEN {
                    proof {
                        lemma_tag_round_trip(tag_kind_spec(kind), timestamp, payload@);
                    }
                    Some(tag(tag_kind(kind), timestamp, payload))
                } else {
                    None
                }
            },
            _ => None,
        }
    }

    /// Whether the last write to the packager went through. A failed write
    /// stops forwarding for the rest of the session.
    pub fn on_write_result(&mut self, written: bool)
        ensures
            (!written && old(self).state is Publishing) ==> match old(self).state {
                SessionState::Publishing { session_id, stream_id } => final(self).state == (
                SessionState::Draining { session_id, stream_id }),
                _ => false,
            },
            !(!written && old(self).state is Publishing) ==> final(self).state == old(self).state,
    {
        if written {
            return;
        }
        let mut st = SessionState::Idle;
        std::mem::swap(&mut st, &mut self.state);
        match st {
            SessionState::Publishing { session_id, stream_id } => {
                self.state = SessionState::Draining { session_id, stream_id };
            },
            other => {
                self.state = other;
            },
        }
    }

    /// The publisher stopped. The session is idle again; if a stream was
    /// set up, its session id and stream id are returned so that its packager
    /// is stopped and it is deregistered.
    pub fn on_unpublish(&mut self) -> (r: Option<(u32, String)>)
        ensures
            final(self).state is Idle,
            match old(self).state {
                SessionState::Starting { session_id, stream_id } => r == Some((session_id, stream_id)),
                SessionState::Publishing { session_id, stream_id } => r == Some(
                    (session_id, stream_id),
                ),
                SessionState::Draining { session_id, stream_id } => r == Some((session_id, stream_id)),
                _ => r is None,
            },
    {
        let mut st = SessionState::Idle;
        std::mem::swap(&mut st, &mut self.state);
        match st {
            SessionState::Starting { session_id, stream_id } => Some((session_id, stream_id)),
            SessionState::Publishing { session_id, stream_id } => Some((session_id, stream_id)),
            SessionState::Draining { session_id, stream_id } => Some((session_id, stream_id)),
            _ => None,
        }
    }

    /// Whether media is currently forwarded.
    pub fn is_forwarding(&self) -> (r: bool)
        ensures
            r == self.state is Publishing,
    {
        match self.state {
            SessionState::Publishing { .. } => true,
            _ => false,
        }
    }
}

/// What the registry keeps of a live stream.
pub struct StreamHandle {
    pub session_id: u32,
    pub stream_key: String,
    pub output_dir: String,
    pub start_time_ms: i64,
}

/// Every live stream, by canonical stream id.
pub struct StreamRegistry {
    pub streams: StreamTable<StreamHandle>,
}

impl StreamRegistry {
    pub open spec fn view(&self) -> Map<Seq<char>, StreamHandle> {
        self.streams@
    }

    pub open spec fn wf(&self) -> bool {
        self.streams.wf()
    }

    pub fn new() -> (r: StreamRegistry)
        ensures
            r.wf(),
            r@ == Map::<Seq<char>, StreamHandle>::empty(),
    {
        StreamRegistry { streams: StreamTable::new() }
    }

    /// Registers a stream; refused with `AlreadyExists` if the id is live.
    pub fn insert(&mut self, stream_id: &str, handle: StreamHandle) -> (r: Result<(), SessionError>)
        requires
            old(self).wf(),
        ensures
            final(self).wf(),
            old(self)@.dom().contains(stream_id@) ==> r == Err::<(), SessionError>(
                SessionError::AlreadyExists,
            ) && final(self)@ == old(self)@,
            !old(self)@.dom().contains(stream_id@) ==> r is Ok && final(self)@ == old(self)@.insert(
                stream_id@,
                handle,
            ),
    {
        if self.streams.contains_key(stream_id) {
            return Err(SessionError::AlreadyExists);
        }
        self.streams.insert(String::from_str(stream_id), handle);
        Ok(())
    }

    /// Deregisters a stream and returns its handle; `NotFound` if it is not
    /// live.
    pub fn remove(&mut self, stream_id: &str) -> (r: Result<StreamHandle, SessionError>)
        requires
            old(self).wf(),
        ensures
            final(self).wf(),
            final(self)@ == old(self)@.remove(stream_id@),
            old(self)@.dom().contains(stream_id@) ==> r is Ok && r->Ok_0 == old(self)@[stream_id@],
            !old(self)@.dom().contains(stream_id@) ==> r == Err::<StreamHandle, SessionError>(
                SessionError::NotFound,
            ),
    {
        match self.streams.remove(stream_id) {
            Some(h) => Ok(h),
            None => Err(SessionError::NotFound),
        }
    }

    pub fn contains(&self, stream_id: &str) -> (r: bool)
        requires
            self.wf(),
        ensures
            r == self@.dom().contains(stream_id@),
    {
        self.streams.contains_key(stream_id)
    }

    pub fn len(&self) -> (r: usize)
        requires
            self.wf(),
        ensures
            r == self@.dom().len(),
    {
        self.streams.len()
    }

    /// The ids of every live stream.
    pub fn stream_ids(&self) -> (r: Vec<String>)
        requires
            self.wf(),
        ensures
            r@.len() == self@.dom().len(),
            forall|i: int| 0 <= i < r@.len() ==> self@.dom().contains(#[trigger] r@[i]@),
            forall|i: int, j: int| 0 <= i < j < r@.len() ==> (#[trigger] r@[i])@ != (#[trigger] r@[j])@,
    {
        self.streams.key_list()
    }
}

} // verus!
