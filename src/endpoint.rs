use vstd::prelude::*;

verus! {

/// Type of endpoint accepting multiple WebTransport connections.
pub struct Server;

/// Type of endpoint opening a WebTransport connection.
pub struct Client;

} // verus!
