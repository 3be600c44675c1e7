use vstd::prelude::*;
use crate::response::response_action;
use crate::response::response_action_of;
use crate::response::ReadOutcome;
use crate::response::ResponseAction;
use crate::target::SocketAddress;
use crate::error::code_of;
use crate::error::ConnectingError;
use crate::error::ConnectionError;
use crate::session::WriteOutcome;
use crate::target::connect_target;
use crate::target::target_of_url;
use crate::target::ConnectTarget;
use crate::target::Destination;

verus! {

/// The step a client handshake waits in.
#[derive(Clone, Copy, Debug, PartialEq, Eq, Structural)]
pub enum ClientStep {
    /// Waiting for the DNS lookup of the host.
    Resolving,
    /// Waiting for the QUIC connection.
    Connecting,
    /// Waiting for the peer's HTTP/3 SETTINGS.
    AwaitingSettings,
    /// Waiting for the driver to open the session stream.
    OpeningSession,
    /// Waiting for the CONNECT request to be written.
    SendingRequest,
    /// Waiting for the response frame.
    ReadingResponse,
    /// Waiting for the driver to register the session.
    Registering,
    /// The handshake is over.
    Finished,
}

/// What the caller observed after performing a client action.
#[derive(Debug, PartialEq, Eq)]
pub enum ClientEvent {
    /// The DNS lookup ended: its first address, or its error.
    Resolved(Result<Option<SocketAddress>, String>),
    /// The QUIC connection was established, or failed.
    QuicConnected(Result<(), ConnectionError>),
    /// The peer's SETTINGS were accepted, or the driver failed.
    SettingsAccepted(Result<(), ConnectionError>),
    /// The session stream was opened, with its session id, or the driver failed.
    SessionOpened(Result<u64, ConnectionError>),
    /// The CONNECT request was written, or not.
    RequestWritten(WriteOutcome),
    /// The response frame was read, or not.
    ResponseRead(ReadOutcome),
    /// The driver registered the session, or failed.
    Registered(Result<(), ConnectionError>),
}

/// What the caller performs next for a client handshake.
#[derive(Clone, Debug, PartialEq, Eq)]
pub enum ClientAction {
    /// Resolve the target's host and port by DNS.
    Lookup,
    /// Open a QUIC connection to `address`, naming the server as the target does.
    QuicConnect { address: SocketAddress },
    /// Start the HTTP/3 driver on the connection and await the peer's SETTINGS.
    AwaitSettings,
    /// Ask the driver to open the session stream.
    OpenSession,
    /// Write the CONNECT request of the target as a HEADERS frame.
    WriteRequest,
    /// Read one frame from the session stream.
    ReadResponse,
    /// Ask the driver to register the session.
    Register,
    /// Close the QUIC connection with this wire code, then fail with `error`.
    CloseAndFail { code: u64, error: ConnectingError },
    /// Fail with this error; the connection, if any, is not closed by this side.
    Fail(ConnectingError),
    /// The session is established.
    Connected { session_id: u64 },
}

/// The state of a client's handshake for one `connect`.
#[derive(Debug)]
pub struct ClientHandshake {
    target: ConnectTarget,
    step: ClientStep,
    session_id: u64,
}

/// Whether `event` is the outcome of what a handshake in `step` asked for.
pub open spec fn answers(step: ClientStep, event: ClientEvent) -> bool {
    match event {
        ClientEvent::Resolved(_) => step == ClientStep::Resolving,
        ClientEvent::QuicConnected(_) => step == ClientStep::Connecting,
        ClientEvent::SettingsAccepted(_) => step == ClientStep::AwaitingSettings,
        ClientEvent::SessionOpened(_) => step == ClientStep::OpeningSession,
        ClientEvent::RequestWritten(_) => step == ClientStep::SendingRequest,
        ClientEvent::ResponseRead(_) => step == ClientStep::ReadingResponse,
        ClientEvent::Registered(_) => step == ClientStep::Registering,
    }
}

/// The action that follows a response action.
pub open spec fn after_response(a: ResponseAction) -> ClientAction {
    match a {
        ResponseAction::Register => ClientAction::Register,
        ResponseAction::Reject => ClientAction::Fail(ConnectingError::SessionRejected),
        ResponseAction::Close(code) => ClientAction::CloseAndFail {
            code: code_of(code),
            error: ConnectingError::ConnectionError(ConnectionError::LocalH3Error(code)),
        },
        ResponseAction::Fail(e) => ClientAction::Fail(ConnectingError::ConnectionError(e)),
    }
}

/// The action that follows `event`, for a handshake whose session id is `session_id`.
pub open spec fn action_after(event: ClientEvent, session_id: u64) -> ClientAction {
    match event {
        ClientEvent::Resolved(Ok(Some(a))) => ClientAction::QuicConnect { address: a },
        ClientEvent::Resolved(Ok(None)) => ClientAction::Fail(ConnectingError::DnsNotFound),
        ClientEvent::Resolved(Err(e)) => ClientAction::Fail(ConnectingError::DnsLookup(e)),
        ClientEvent::QuicConnected(Ok(())) => ClientAction::AwaitSettings,
        ClientEvent::SettingsAccepted(Ok(())) => ClientAction::OpenSession,
        ClientEvent::SessionOpened(Ok(_)) => ClientAction::WriteRequest,
        ClientEvent::RequestWritten(WriteOutcome::Written) => ClientAction::ReadResponse,
        ClientEvent::RequestWritten(WriteOutcome::Stopped) => ClientAction::Fail(
            ConnectingError::SessionRejected,
        ),
        ClientEvent::RequestWritten(WriteOutcome::NotConnected(e)) => ClientAction::Fail(
            ConnectingError::ConnectionError(e),
        ),
        ClientEvent::ResponseRead(r) => after_response(response_action_of(r)),
        ClientEvent::Registered(Ok(())) => ClientAction::Connected { session_id },
        ClientEvent::QuicConnected(Err(e)) => ClientAction::Fail(ConnectingError::ConnectionError(e)),
        ClientEvent::SettingsAccepted(Err(e)) => ClientAction::Fail(
            ConnectingError::ConnectionError(e),
        ),
        ClientEvent::SessionOpened(Err(e)) => ClientAction::Fail(ConnectingError::ConnectionError(e)),
        ClientEvent::Registered(Err(e)) => ClientAction::Fail(ConnectingError::ConnectionError(e)),
    }
}

/// The first action of a handshake towards `target`: a domain is looked up
/// first, an IP address is connected to at once.
pub open spec fn first_action(target: ConnectTarget) -> ClientAction {
    match target.destination {
        Destination::Lookup { .. } => ClientAction::Lookup,
        Destination::Address(a) => ClientAction::QuicConnect { address: a },
    }
}

/// The step a handshake waits in after asking for `action`.
pub open spec fn step_after(action: ClientAction) -> ClientStep {
    match action {
        ClientAction::Lookup => ClientStep::Resolving,
        ClientAction::QuicConnect { .. } => ClientStep::Connecting,
        ClientAction::AwaitSettings => ClientStep::AwaitingSettings,
        ClientAction::OpenSession => ClientStep::OpeningSession,
        ClientAction::WriteRequest => ClientStep::SendingRequest,
        ClientAction::ReadResponse => ClientStep::ReadingResponse,
        ClientAction::Register => ClientStep::Registering,
        _ => ClientStep::Finished,
    }
}

fn step_of(action: &ClientAction) -> (r: ClientStep)
    ensures
        r == step_after(*action),
{
    match action {
        ClientAction::Lookup => ClientStep::Resolving,
        ClientAction::QuicConnect { .. } => ClientStep::Connecting,
        ClientAction::AwaitSettings => ClientStep::AwaitingSettings,
        ClientAction::OpenSession => ClientStep::OpeningSession,
        ClientAction::WriteRequest => ClientStep::SendingRequest,
        ClientAction::ReadResponse => ClientStep::ReadingResponse,
        ClientAction::Register => ClientStep::Registering,
        _ => ClientStep::Finished,
    }
}

impl ClientHandshake {
    /// The step the handshake waits in.
    pub closed spec fn spec_step(&self) -> ClientStep {
        self.step
    }

    /// The session id that the driver gave the session stream (0 before it did).
    pub closed spec fn spec_session_id(&self) -> u64 {
        self.session_id
    }

    /// Where and how the handshake connects.
    pub closed spec fn spec_target(&self) -> ConnectTarget {
        self.target
    }

    /// Starts a handshake towards `target`.
    ///
    /// A domain is looked up first; an IP address is connected to at once.
    pub fn new(target: ConnectTarget) -> (r: (ClientHandshake, ClientAction))
        ensures
            r.0.spec_session_id() == 0,
            r.0.spec_target() == target,
            r.0.spec_step() == step_after(r.1),
            r.1 == first_action(target),
    {
        let action = match &target.destination {
            Destination::Lookup { .. } => ClientAction::Lookup,
            Destination::Address(a) => ClientAction::QuicConnect { address: *a },
        };
        let step = step_of(&action);
        (ClientHandshake { target, step, session_id: 0 }, action)
    }

    /// Starts a handshake to the URL `url`, or fails when the URL is refused.
    ///
    /// A URL that does not parse, has a scheme other than `https` or has no
    /// host fails with `InvalidUrl` before any network work is asked for.
    pub fn start(url: &str) -> (r: Result<(ClientHandshake, ClientAction), ConnectingError>)
        ensures
            match r {
                Ok(p) => target_of_url(url@, Ok(p.0.spec_target())) && p.1 == first_action(
                    p.0.spec_target(),
                ) && p.0.spec_step() == step_after(p.1) && p.0.spec_session_id() == 0,
                Err(e) => target_of_url(url@, Err(e)),
            },
    {
        match connect_target(url) {
            Ok(t) => Ok(ClientHandshake::new(t)),
            Err(e) => Err(e),
        }
    }

    /// Where and how the handshake connects.
    pub fn target(&self) -> (r: &ConnectTarget)
        ensures
            *r == self.spec_target(),
    {
        &self.target
    }

    /// The step the handshake waits in.
    pub fn step(&self) -> (r: ClientStep)
        ensures
            r == self.spec_step(),
    {
        self.step
    }

    /// Whether `event` is the outcome of what the handshake asked for last.
    pub fn answered_by(&self, event: &ClientEvent) -> (r: bool)
        ensures
            r == answers(self.spec_step(), *event),
    {
        match event {
            ClientEvent::Resolved(_) => self.step == ClientStep::Resolving,
            ClientEvent::QuicConnected(_) => self.step == ClientStep::Connecting,
            ClientEvent::SettingsAccepted(_) => self.step == ClientStep::AwaitingSettings,
            ClientEvent::SessionOpened(_) => self.step == ClientStep::OpeningSession,
            ClientEvent::RequestWritten(_) => self.step == ClientStep::SendingRequest,
            ClientEvent::ResponseRead(_) => self.step == ClientStep::ReadingResponse,
            ClientEvent::Registered(_) => self.step == ClientStep::Registering,
        }
    }

    /// Takes the outcome of the last action and decides the next one.
    ///
    /// The session id is taken when the session stream opens and is the one
    /// reported on success.
    pub fn on_event(&mut self, event: ClientEvent) -> (r: ClientAction)
        requires
            answers(old(self).spec_step(), event),
        ensures
            r == action_after(event, final(self).spec_session_id()),
            final(self).spec_step() == step_after(r),
            final(self).spec_target() == old(self).spec_target(),
            final(self).spec_session_id() == match event {
                ClientEvent::SessionOpened(Ok(id)) => id,
                _ => old(self).spec_session_id(),
            },
    {
        let action = match event {
            ClientEvent::Resolved(Ok(Some(a))) => ClientAction::QuicConnect { address: a },
            ClientEvent::Resolved(Ok(None)) => ClientAction::Fail(ConnectingError::DnsNotFound),
            ClientEvent::Resolved(Err(e)) => ClientAction::Fail(ConnectingError::DnsLookup(e)),
            ClientEvent::QuicConnected(Ok(())) => ClientAction::AwaitSettings,
            ClientEvent::SettingsAccepted(Ok(())) => ClientAction::OpenSession,
            ClientEvent::SessionOpened(Ok(id)) => {
                self.session_id = id;
                ClientAction::WriteRequest
            },
            ClientEvent::RequestWritten(WriteOutcome::Written) => ClientAction::ReadResponse,
            ClientEvent::RequestWritten(WriteOutcome::Stopped) => ClientAction::Fail(
                ConnectingError::SessionRejected,
            ),
            ClientEvent::RequestWritten(WriteOutcome::NotConnected(e)) => ClientAction::Fail(
                ConnectingError::ConnectionError(e),
            ),
            ClientEvent::ResponseRead(read) => match response_action(read) {
                ResponseAction::Register => ClientAction::Register,
                ResponseAction::Reject => ClientAction::Fail(ConnectingError::SessionRejected),
                ResponseAction::Close(code) => ClientAction::CloseAndFail {
                    code: code.to_code(),
                    error: ConnectingError::ConnectionError(ConnectionError::local_h3_error(code)),
                },
                ResponseAction::Fail(e) => ClientAction::Fail(ConnectingError::ConnectionError(e)),
            },
            ClientEvent::Registered(Ok(())) => ClientAction::Connected { session_id: self.session_id },
            ClientEvent::QuicConnected(Err(e)) => ClientAction::Fail(
                ConnectingError::ConnectionError(e),
            ),
            ClientEvent::SettingsAccepted(Err(e)) => ClientAction::Fail(
                ConnectingError::ConnectionError(e),
            ),
            ClientEvent::SessionOpened(Err(e)) => ClientAction::Fail(
                ConnectingError::ConnectionError(e),
            ),
            ClientEvent::Registered(Err(e)) => ClientAction::Fail(
                ConnectingError::ConnectionError(e),
            ),
        };
        self.step = step_of(&action);
        action
    }
}

} // verus!
