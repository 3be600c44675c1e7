use vstd::prelude::*;

verus! {

/// HTTP/3 error codes, as carried when a QUIC connection is closed.
#[derive(Clone, Copy, Debug, PartialEq, Eq, Structural)]
pub enum ErrorCode {
    NoError,
    GeneralProtocol,
    Internal,
    StreamCreation,
    ClosedCriticalStream,
    FrameUnexpected,
    Frame,
    ExcessiveLoad,
    Id,
    Settings,
    MissingSettings,
    RequestRejected,
    RequestCancelled,
    RequestIncomplete,
    Message,
    Connect,
    VersionFallback,
    DecompressionFailed,
    EncoderStream,
    DecoderStream,
}

/// The wire value of an HTTP/3 error code.
pub open spec fn code_of(e: ErrorCode) -> u64 {
    match e {
        ErrorCode::NoError => 0x100,
        ErrorCode::GeneralProtocol => 0x101,
        ErrorCode::Internal => 0x102,
        ErrorCode::StreamCreation => 0x103,
        ErrorCode::ClosedCriticalStream => 0x104,
        ErrorCode::FrameUnexpected => 0x105,
        ErrorCode::Frame => 0x106,
        ErrorCode::ExcessiveLoad => 0x107,
        ErrorCode::Id => 0x108,
        ErrorCode::Settings => 0x109,
        ErrorCode::MissingSettings => 0x10a,
        ErrorCode::RequestRejected => 0x10b,
        ErrorCode::RequestCancelled => 0x10c,
        ErrorCode::RequestIncomplete => 0x10d,
        ErrorCode::Message => 0x10e,
        ErrorCode::Connect => 0x10f,
        ErrorCode::VersionFallback => 0x110,
        ErrorCode::DecompressionFailed => 0x200,
        ErrorCode::EncoderStream => 0x201,
        ErrorCode::DecoderStream => 0x202,
    }
}

/// Largest value that a QUIC variable-length integer can carry.
pub open spec fn varint_max() -> u64 {
    0x3fff_ffff_ffff_ffff
}

impl ErrorCode {
    /// The code sent on the wire for this error.
    pub fn to_code(self) -> (r: u64)
        ensures
            r == code_of(self),
            r <= varint_max(),
    {
        match self {
            ErrorCode::NoError => 0x100,
            ErrorCode::GeneralProtocol => 0x101,
            ErrorCode::Internal => 0x102,
            ErrorCode::StreamCreation => 0x103,
            ErrorCode::ClosedCriticalStream => 0x104,
            ErrorCode::FrameUnexpected => 0x105,
            ErrorCode::Frame => 0x106,
            ErrorCode::ExcessiveLoad => 0x107,
            ErrorCode::Id => 0x108,
            ErrorCode::Settings => 0x109,
            ErrorCode::MissingSettings => 0x10a,
            ErrorCode::RequestRejected => 0x10b,
            ErrorCode::RequestCancelled => 0x10c,
            ErrorCode::RequestIncomplete => 0x10d,
            ErrorCode::Message => 0x10e,
            ErrorCode::Connect => 0x10f,
            ErrorCode::VersionFallback => 0x110,
            ErrorCode::DecompressionFailed => 0x200,
            ErrorCode::EncoderStream => 0x201,
            ErrorCode::DecoderStream => 0x202,
        }
    }
}

} // verus!

verus! {

/// Error of an established or establishing WebTransport connection.
#[derive(Clone, Debug, PartialEq, Eq)]
pub enum ConnectionError {
    /// The QUIC connection failed or was closed; the reason QUIC reported.
    Quic(String),
    /// The HTTP/3 driver failed; the reason it reported.
    Driver(String),
    /// This side closed the connection with an HTTP/3 error code.
    LocalH3Error(ErrorCode),
    /// The connection was found gone; the reason QUIC recorded when it
    /// closed, if it recorded one.
    NoConnection(Option<String>),
}

/// Error of a client's attempt to open a WebTransport session.
#[derive(Clone, Debug, PartialEq, Eq)]
pub enum ConnectingError {
    /// The URL is malformed or its scheme is not `https`.
    InvalidUrl(String),
    /// The DNS lookup of the host failed.
    DnsLookup(String),
    /// The DNS lookup of the host gave no address.
    DnsNotFound,
    /// The server refused the session.
    SessionRejected,
    /// The connection failed underneath the session.
    ConnectionError(ConnectionError),
}

impl ConnectionError {
    /// The error of a connection that this side closed with `code`.
    pub fn local_h3_error(code: ErrorCode) -> (r: ConnectionError)
        ensures
            r == ConnectionError::LocalH3Error(code),
    {
        ConnectionError::LocalH3Error(code)
    }
}

} // verus!
