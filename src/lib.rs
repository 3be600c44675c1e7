//! Endpoint and session-establishment core of a WebTransport library.
//!
//! The library holds the decisions of the handshakes: how a socket is set up,
//! where a client connects to, how each outcome of the HTTP/3 layer is turned
//! into the next step or into an error, and what a server answers.
//! The QUIC stack, the HTTP/3 driver and the sockets are driven by the caller,
//! which hands the outcome of each operation back to these functions.
mod config;
mod endpoint;
mod error;
mod handshake;
mod headers;
mod laws;
mod response;
mod session;
mod target;

pub use config::Ipv6DualStackConfig;
pub use config::SocketPlan;
pub use endpoint::Client;
pub use endpoint::Server;
pub use error::ConnectingError;
pub use error::ConnectionError;
pub use error::ErrorCode;
pub use handshake::ClientAction;
pub use handshake::ClientEvent;
pub use handshake::ClientHandshake;
pub use handshake::ClientStep;
pub use headers::contains_subslice;
pub use headers::Headers;
pub use laws::connected_only_after_registration;
pub use laws::draft_header_follows_user_agent;
pub use laws::h3_fault_closes_with_its_code;
pub use laws::rejection_leaves_connection;
pub use response::response_action;
pub use response::response_status;
pub use response::ReadOutcome;
pub use response::ResponseAction;
pub use session::send_outcome;
pub use session::SendOutcome;
pub use session::SessionRequest;
pub use session::WriteOutcome;
pub use target::connect_target;
pub use target::ConnectTarget;
pub use target::Destination;
pub use target::SocketAddress;
pub use target::UrlHost;
pub use target::UrlParts;
