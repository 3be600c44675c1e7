use vstd::prelude::*;
use vstd::utf8::encode_utf8;
use crate::error::ConnectionError;
use crate::error::ErrorCode;
use crate::headers::contains_bytes;
use crate::headers::contains_subslice;
use crate::headers::lookup;
use crate::headers::FieldView;
use crate::headers::Headers;

verus! {

/// Outcome of writing a HEADERS frame on a session stream.
#[derive(Clone, Debug, PartialEq, Eq)]
pub enum WriteOutcome {
    /// The frame was written.
    Written,
    /// The peer stopped the stream.
    Stopped,
    /// The connection is gone; the error that its last close state gives.
    NotConnected(ConnectionError),
}

/// What a server does after writing its response on a session stream.
#[derive(Clone, Debug, PartialEq, Eq)]
pub enum SendOutcome {
    /// The response was sent.
    Sent,
    /// Close the QUIC connection with this HTTP/3 error code, then fail with `error`.
    Close { code: ErrorCode, error: ConnectionError },
    /// Fail with this error; the connection is not closed by this side.
    Fail(ConnectionError),
}

/// Bytes of the user-agent marker that turns the draft header off.
pub open spec fn firefox_marker() -> Seq<u8> {
    seq![102u8, 105u8, 114u8, 101u8, 102u8, 111u8, 120u8]
}

/// Name of the header that announces the WebTransport draft to the peer.
pub open spec fn draft_header_name() -> Seq<char> {
    seq!['s', 'e', 'c', '-', 'w', 'e', 'b', 't', 'r', 'a', 'n', 's', 'p', 'o', 'r', 't', '-', 'h', 't', 't', 'p', '3', '-', 'd', 'r', 'a', 'f', 't']
}

/// Value of the draft header.
pub open spec fn draft_header_value() -> Seq<char> {
    seq!['d', 'r', 'a', 'f', 't', '0', '2']
}

/// Name of the response status pseudo-header.
pub open spec fn status_name() -> Seq<char> {
    seq![':', 's', 't', 'a', 't', 'u', 's']
}

/// Name of the `:authority` request header.
pub open spec fn authority_name() -> Seq<char> {
    seq![':', 'a', 'u', 't', 'h', 'o', 'r', 'i', 't', 'y']
}

/// Name of the `:path` request header.
pub open spec fn path_name() -> Seq<char> {
    seq![':', 'p', 'a', 't', 'h']
}

/// Name of the `origin` request header.
pub open spec fn origin_name() -> Seq<char> {
    seq!['o', 'r', 'i', 'g', 'i', 'n']
}

/// Name of the `user-agent` request header.
pub open spec fn user_agent_name() -> Seq<char> {
    seq!['u', 's', 'e', 'r', '-', 'a', 'g', 'e', 'n', 't']
}

/// Whether a response to a peer with this user agent carries the draft header.
pub open spec fn wants_draft_header(user_agent: Option<Seq<char>>) -> bool {
    match user_agent {
        Some(ua) => !contains_bytes(encode_utf8(ua), firefox_marker()),
        None => true,
    }
}

/// The fields of a response with status text `status` to a peer with this user agent.
pub open spec fn response_fields(status: Seq<char>, user_agent: Option<Seq<char>>) -> Seq<FieldView> {
    if wants_draft_header(user_agent) {
        seq![(status_name(), status), (draft_header_name(), draft_header_value())]
    } else {
        seq![(status_name(), status)]
    }
}

/// What a server does after writing its response, for each outcome of the write.
pub open spec fn send_outcome_of(w: WriteOutcome) -> SendOutcome {
    match w {
        WriteOutcome::Written => SendOutcome::Sent,
        WriteOutcome::Stopped => SendOutcome::Close {
            code: ErrorCode::ClosedCriticalStream,
            error: ConnectionError::LocalH3Error(ErrorCode::ClosedCriticalStream),
        },
        WriteOutcome::NotConnected(e) => SendOutcome::Fail(e),
    }
}

/// An incoming client session request: the decoded CONNECT headers and the
/// session stream that carried them.
#[derive(Debug)]
pub struct SessionRequest {
    headers: Headers,
    authority: String,
    path: String,
    origin: Option<String>,
    user_agent: Option<String>,
    stream_id: u64,
    session_id: u64,
}

/// View of an optional string.
pub open spec fn opt_view(s: Option<String>) -> Option<Seq<char>> {
    match s {
        Some(v) => Some(v@),
        None => None,
    }
}

fn get_owned(headers: &Headers, name: &str) -> (r: Option<String>)
    ensures
        opt_view(r) == lookup(headers@, name@),
{
    match headers.get(name) {
        Some(v) => Some(v.clone()),
        None => None,
    }
}

impl SessionRequest {
    /// The decoded CONNECT headers.
    pub closed spec fn spec_headers(&self) -> Seq<FieldView> {
        self.headers@
    }

    /// The id of the stream that carried the request.
    pub closed spec fn spec_stream_id(&self) -> u64 {
        self.stream_id
    }

    /// The id of the session that the request opens.
    pub closed spec fn spec_session_id(&self) -> u64 {
        self.session_id
    }

    /// The fields that the accessors read stand as they were decoded.
    pub closed spec fn wf(&self) -> bool {
        &&& lookup(self.headers@, authority_name())
            == Some(self.authority@)
        &&& lookup(self.headers@, path_name()) == Some(self.path@)
        &&& lookup(self.headers@, origin_name()) == opt_view(self.origin)
        &&& lookup(self.headers@, user_agent_name())
            == opt_view(self.user_agent)
    }

    /// The request that the CONNECT headers `headers` make on a stream.
    ///
    /// It is refused (`None`) exactly when `:authority` or `:path` is missing.
    pub fn new(headers: Headers, stream_id: u64, session_id: u64) -> (r: Option<SessionRequest>)
        ensures
            r is Some <==> (lookup(headers@, authority_name())
                is Some && lookup(headers@, path_name()) is Some),
            r matches Some(q) ==> q.wf() && q.spec_headers() == headers@
                && q.spec_stream_id() == stream_id && q.spec_session_id() == session_id,
    {
        proof {
            reveal_strlit(":authority");
            reveal_strlit(":path");
            reveal_strlit("origin");
            reveal_strlit("user-agent");
            assert(":authority"@ =~= authority_name());
            assert(":path"@ =~= path_name());
            assert("origin"@ =~= origin_name());
            assert("user-agent"@ =~= user_agent_name());
        }
        let authority = get_owned(&headers, ":authority");
        let path = get_owned(&headers, ":path");
        let origin = get_owned(&headers, "origin");
        let user_agent = get_owned(&headers, "user-agent");
        match (authority, path) {
            (Some(authority), Some(path)) => Some(
                SessionRequest { headers, authority, path, origin, user_agent, stream_id, session_id },
            ),
            _ => None,
        }
    }

    /// The `:authority` field of the request.
    pub fn authority(&self) -> (r: &str)
        requires
            self.wf(),
        ensures
            lookup(self.spec_headers(), authority_name()) == Some(r@),
    {
        self.authority.as_str()
    }

    /// The `:path` field of the request.
    pub fn path(&self) -> (r: &str)
        requires
            self.wf(),
        ensures
            lookup(self.spec_headers(), path_name()) == Some(r@),
    {
        self.path.as_str()
    }

    /// The `origin` field of the request, if present.
    pub fn origin(&self) -> (r: Option<&str>)
        requires
            self.wf(),
        ensures
            lookup(self.spec_headers(), origin_name()) == match r {
                Some(v) => Some(v@),
                None => None::<Seq<char>>,
            },
    {
        match &self.origin {
            Some(v) => Some(v.as_str()),
            None => None,
        }
    }

    /// The `user-agent` field of the request, if present.
    pub fn user_agent(&self) -> (r: Option<&str>)
        requires
            self.wf(),
        ensures
            lookup(self.spec_headers(), user_agent_name()) == match r {
                Some(v) => Some(v@),
                None => None::<Seq<char>>,
            },
    {
        match &self.user_agent {
            Some(v) => Some(v.as_str()),
            None => None,
        }
    }

    /// All header fields of the request.
    pub fn headers(&self) -> (r: &Headers)
        ensures
            r@ == self.spec_headers(),
    {
        &self.headers
    }

    /// The id of the stream that carried the request.
    pub fn stream_id(&self) -> (r: u64)
        ensures
            r == self.spec_stream_id(),
    {
        self.stream_id
    }

    /// The id of the session that the request opens.
    pub fn session_id(&self) -> (r: u64)
        ensures
            r == self.spec_session_id(),
    {
        self.session_id
    }

    fn draft_header_wanted(&self) -> (r: bool)
        requires
            self.wf(),
        ensures
            r == wants_draft_header(lookup(self.spec_headers(), user_agent_name())),
    {
        match &self.user_agent {
            Some(ua) => {
                let marker: Vec<u8> = vec![102u8, 105u8, 114u8, 101u8, 102u8, 111u8, 120u8];
                assert(marker@ =~= firefox_marker());
                !contains_subslice(ua.as_str().as_bytes(), marker.as_slice())
            },
            None => true,
        }
    }

    fn response(&self, status: String) -> (r: Headers)
        requires
            self.wf(),
        ensures
            r@ == response_fields(status@, lookup(self.spec_headers(), user_agent_name())),
    {
        proof {
            reveal_strlit(":status");
            reveal_strlit("sec-webtransport-http3-draft");
            reveal_strlit("draft02");
            assert(":status"@ =~= status_name());
            assert("sec-webtransport-http3-draft"@ =~= draft_header_name());
            assert("draft02"@ =~= draft_header_value());
        }
        let mut r = Headers::new();
        r.add(":status".to_owned(), status);
        if self.draft_header_wanted() {
            r.add("sec-webtransport-http3-draft".to_owned(), "draft02".to_owned());
        }
        assert(r@ =~= response_fields(status@, lookup(self.spec_headers(), user_agent_name())));
        r
    }

    /// The headers of the response that accepts the request: status `200`, and
    /// the draft header unless the user agent holds `firefox`.
    pub fn accept_response(&self) -> (r: Headers)
        requires
            self.wf(),
        ensures
            r@ == response_fields(seq!['2', '0', '0'], lookup(self.spec_headers(), user_agent_name())),
    {
        proof {
            reveal_strlit("200");
            assert("200"@ =~= seq!['2', '0', '0']);
        }
        self.response("200".to_owned())
    }

    /// The headers of the response that rejects the request: status `404`, and
    /// the draft header unless the user agent holds `firefox`.
    pub fn not_found_response(&self) -> (r: Headers)
        requires
            self.wf(),
        ensures
            r@ == response_fields(seq!['4', '0', '4'], lookup(self.spec_headers(), user_agent_name())),
    {
        proof {
            reveal_strlit("404");
            assert("404"@ =~= seq!['4', '0', '4']);
        }
        self.response("404".to_owned())
    }

    /// The session that accepting the request establishes, once its response
    /// was sent and the driver answered the registration with `registered`.
    pub fn established(&self, registered: Result<(), ConnectionError>) -> (r: Result<
        u64,
        ConnectionError,
    >)
        ensures
            match registered {
                Ok(()) => r == Ok::<u64, ConnectionError>(self.spec_session_id()),
                Err(e) => r == Err::<u64, ConnectionError>(e),
            },
    {
        match registered {
            Ok(()) => Ok(self.session_id),
            Err(e) => Err(e),
        }
    }
}

/// What a server does after writing its response on the session stream.
///
/// A stopped stream is a protocol fault of the peer: the connection is closed
/// with `ClosedCriticalStream`. A lost connection is reported as it was found.
pub fn send_outcome(w: WriteOutcome) -> (r: SendOutcome)
    ensures
        r == send_outcome_of(w),
{
    match w {
        WriteOutcome::Written => SendOutcome::Sent,
        WriteOutcome::Stopped => SendOutcome::Close {
            code: ErrorCode::ClosedCriticalStream,
            error: ConnectionError::local_h3_error(ErrorCode::ClosedCriticalStream),
        },
        WriteOutcome::NotConnected(e) => SendOutcome::Fail(e),
    }
}

} // verus!
