use vstd::prelude::*;
use vstd::string::*;

verus! {

/// The user a stream key belongs to, as the identity service reports it.
pub struct StreamUserResponse {
    pub nickname: String,
    pub created_at: String,
}

/// The identity service's reply envelope.
pub struct BaseStreamUserResponse {
    pub status: String,
    pub message: String,
    pub data: StreamUserResponse,
    pub timestamp: String,
}

/// Why a stream key was not turned into a stream id.
#[derive(Clone, Copy, PartialEq, Eq, Structural, Debug)]
pub enum AuthError {
    /// The service answered with a non-success status.
    Denied,
    /// The service did not answer in time.
    Timeout,
    /// The request could not be made or its reply not read.
    Transport,
}

/// `<nickname>/<created_at>`: the canonical id of a stream.
pub open spec fn stream_id_spec(nickname: Seq<char>, created_at: Seq<char>) -> Seq<char> {
    nickname + "/"@ + created_at
}

impl StreamUserResponse {
    pub fn new(nickname: String, created_at: String) -> (r: StreamUserResponse)
        ensures
            r.nickname == nickname,
            r.created_at == created_at,
    {
        StreamUserResponse { nickname, created_at }
    }

    pub fn get_nickname(&self) -> (r: String)
        ensures
            r@ == self.nickname@,
    {
        self.nickname.clone()
    }

    pub fn get_start_time(&self) -> (r: String)
        ensures
            r@ == self.created_at@,
    {
        self.created_at.clone()
    }

    /// The canonical stream id of this user's stream.
    pub fn stream_id(&self) -> (r: String)
        ensures
            r@ == stream_id_spec(self.nickname@, self.created_at@),
    {
        let mut s = self.get_nickname();
        s.append("/");
        s.append(self.created_at.as_str());
        s
    }
}

/// Whether an HTTP status means the key was accepted: any 2xx.
pub fn is_success_status(status: u16) -> (r: bool)
    ensures
        r == (200 <= status < 300),
{
    200 <= status && status < 300
}

/// The user that an authentication outcome names, or why there is none: a
/// non-success status is a denial, whatever the body says, and a success
/// without a readable body is a transport failure.
pub fn user_from_reply(status: u16, reply: Option<BaseStreamUserResponse>) -> (r: Result<
    StreamUserResponse,
    AuthError,
>)
    ensures
        !(200 <= status < 300) ==> r == Err::<StreamUserResponse, AuthError>(AuthError::Denied),
        (200 <= status < 300) && reply.is_none() ==> r == Err::<StreamUserResponse, AuthError>(
            AuthError::Transport,
        ),
        (200 <= status < 300) && reply.is_some() ==> r == Ok::<StreamUserResponse, AuthError>(
            reply->0.data,
        ),
{
    if !is_success_status(status) {
        return Err(AuthError::Denied);
    }
    match reply {
        Some(body) => Ok(body.data),
        None => Err(AuthError::Transport),
    }
}

/// The stream id that an authentication outcome gives, or why there is none.
pub fn stream_id_from_reply(status: u16, reply: Option<BaseStreamUserResponse>) -> (r: Result<
    String,
    AuthError,
>)
    ensures
        !(200 <= status < 300) ==> r == Err::<String, AuthError>(AuthError::Denied),
        (200 <= status < 300) && reply.is_none() ==> r == Err::<String, AuthError>(
            AuthError::Transport,
        ),
        (200 <= status < 300) && reply.is_some() ==> r is Ok && r->Ok_0@ == stream_id_spec(
            reply->0.data.nickname@,
            reply->0.data.created_at@,
        ),
{
    match user_from_reply(status, reply) {
        Ok(user) => Ok(user.stream_id()),
        Err(e) => Err(e),
    }
}

} // verus!
