use vstd::prelude::*;
use vstd::utf8::encode_utf8;
use crate::response::h3_fault_of;
use crate::response::ReadOutcome;
use crate::error::code_of;
use crate::response::response_action_of;
use crate::handshake::action_after;
use crate::handshake::after_response;
use crate::handshake::answers;
use crate::handshake::step_after;
use crate::handshake::ClientAction;
use crate::handshake::ClientEvent;
use crate::handshake::ClientStep;
use crate::error::ConnectingError;
use crate::error::ConnectionError;
use crate::headers::contains_bytes;
use crate::headers::lookup;
use crate::session::draft_header_name;
use crate::session::draft_header_value;
use crate::session::firefox_marker;
use crate::session::response_fields;
use crate::session::status_name;

verus! {

/// A server's response carries the draft header exactly when the peer's user
/// agent does not hold the bytes `firefox`; its status stands first.
pub proof fn draft_header_follows_user_agent(status: Seq<char>, user_agent: Option<Seq<char>>)
    ensures
        lookup(response_fields(status, user_agent), status_name()) == Some(status),
        (lookup(response_fields(status, user_agent), draft_header_name()) is Some) <==> !(
        user_agent is Some && contains_bytes(encode_utf8(user_agent->Some_0), firefox_marker())),
        lookup(response_fields(status, user_agent), draft_header_name()) is Some ==> lookup(
            response_fields(status, user_agent),
            draft_header_name(),
        ) == Some(draft_header_value()),
{
    reveal_with_fuel(lookup, 3);
    let f = response_fields(status, user_agent);
    assert(status_name() != draft_header_name()) by {
        assert(status_name().len() != draft_header_name().len());
    }
    assert(f[0].0 == status_name());
    if f.len() == 2 {
        assert(f.drop_first()[0].0 == draft_header_name());
        assert(f.drop_first().drop_first().len() == 0);
    } else {
        assert(f.drop_first().len() == 0);
    }
}

/// Every fault of the HTTP/3 layer in a client's response read closes the
/// connection with that fault's wire code before the connect fails with the
/// local HTTP/3 error of the same code. A read without such a fault closes
/// nothing.
pub proof fn h3_fault_closes_with_its_code(read: ReadOutcome, session_id: u64)
    ensures
        match h3_fault_of(read) {
            Some(fault) => action_after(ClientEvent::ResponseRead(read), session_id)
                == (ClientAction::CloseAndFail {
                code: code_of(fault),
                error: ConnectingError::ConnectionError(ConnectionError::LocalH3Error(fault)),
            }),
            None => !(action_after(ClientEvent::ResponseRead(read), session_id) is CloseAndFail),
        },
{
}

/// Whether an action closes the connection and reports a refused session.
pub open spec fn closes_with_rejection(action: ClientAction) -> bool {
    action matches ClientAction::CloseAndFail { error: ConnectingError::SessionRejected, .. }
}

/// A handshake that ends in `SessionRejected` does so without closing the
/// connection and without establishing a session: it is finished, and no
/// further outcome is taken.
pub proof fn rejection_leaves_connection(event: ClientEvent, session_id: u64)
    ensures
        !closes_with_rejection(action_after(event, session_id)),
        action_after(event, session_id) == ClientAction::Fail(ConnectingError::SessionRejected)
            ==> step_after(action_after(event, session_id)) == ClientStep::Finished,
        forall|later: ClientEvent| !answers(ClientStep::Finished, later),
{
}

/// A client handshake establishes its session only after the driver
/// registered it, and reports the session id that the session stream was
/// opened with.
pub proof fn connected_only_after_registration(event: ClientEvent, session_id: u64)
    ensures
        action_after(event, session_id) is Connected ==> (event matches ClientEvent::Registered(Ok(_))),
        action_after(event, session_id) is Connected ==> action_after(event, session_id) == (
        ClientAction::Connected { session_id }),
{
    match event {
        ClientEvent::ResponseRead(r) => {
            let a = response_action_of(r);
            assert(action_after(event, session_id) == after_response(a));
            assert(!(after_response(a) is Connected));
        },
        _ => {},
    }
}

} // verus!
