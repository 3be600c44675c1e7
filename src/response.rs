use vstd::prelude::*;
use vstd::utf8::encode_utf8;
use crate::error::ConnectionError;
use crate::error::ErrorCode;
use crate::headers::lookup;
use crate::headers::Headers;
use crate::session::status_name;

verus! {

/// Outcome of reading the response frame on the session stream.
#[derive(Debug, PartialEq, Eq)]
pub enum ReadOutcome {
    /// A HEADERS frame, with the result of decoding its fields.
    Headers(Result<Headers, ErrorCode>),
    /// A frame of another kind.
    OtherFrame,
    /// The HTTP/3 layer failed with this code.
    H3(ErrorCode),
    /// The stream failed; the error that the connection's close state gives.
    Io(ConnectionError),
}

/// What a client does once the response frame was read.
#[derive(Clone, Debug, PartialEq, Eq)]
pub enum ResponseAction {
    /// The server accepted: register the session with the driver.
    Register,
    /// The server refused the session; the connection is left as it is.
    Reject,
    /// Close the QUIC connection with `code`, then fail with a local HTTP/3 error.
    Close(ErrorCode),
    /// Fail with this error; the connection is not closed by this side.
    Fail(ConnectionError),
}

/// Value of an ASCII decimal digit, if `c` is one.
pub open spec fn digit_of(c: u8) -> Option<u16> {
    if 48 <= c && c <= 57 {
        Some((c - 48) as u16)
    } else {
        None
    }
}

/// The status code that the bytes of a `:status` value give: three ASCII
/// digits, from 100 to 599.
pub open spec fn status_of(v: Seq<u8>) -> Option<u16> {
    if v.len() == 3 && digit_of(v[0]) is Some && digit_of(v[1]) is Some && digit_of(v[2]) is Some {
        let n = (digit_of(v[0])->Some_0 * 100 + digit_of(v[1])->Some_0 * 10 + digit_of(v[2])->Some_0) as u16;
        if 100 <= n && n <= 599 {
            Some(n)
        } else {
            None
        }
    } else {
        None
    }
}

/// The status code of a response, if its `:status` field holds one.
pub open spec fn response_status_of(fields: Seq<(Seq<char>, Seq<char>)>) -> Option<u16> {
    match lookup(fields, status_name()) {
        Some(v) => status_of(encode_utf8(v)),
        None => None,
    }
}

/// Whether a status code is in the 2xx range.
pub open spec fn is_successful(status: u16) -> bool {
    200 <= status && status <= 299
}

fn digit(c: u8) -> (r: Option<u16>)
    ensures
        r == digit_of(c),
{
    if 48 <= c && c <= 57 {
        Some((c - 48) as u16)
    } else {
        None
    }
}

/// The status code of a response, if its `:status` field holds one.
pub fn response_status(headers: &Headers) -> (r: Option<u16>)
    ensures
        r == response_status_of(headers@),
{
    proof {
        reveal_strlit(":status");
        assert(":status"@ =~= status_name());
    }
    match headers.get(":status") {
        Some(v) => {
            let b = v.as_str().as_bytes();
            if b.len() != 3 {
                return None;
            }
            let (d0, d1, d2) = (digit(b[0]), digit(b[1]), digit(b[2]));
            match (d0, d1, d2) {
                (Some(x), Some(y), Some(z)) => {
                    let n: u16 = x * 100 + y * 10 + z;
                    if 100 <= n && n <= 599 {
                        Some(n)
                    } else {
                        None
                    }
                },
                _ => None,
            }
        },
        None => None,
    }
}

/// What a client does once the response frame was read.
pub open spec fn response_action_of(read: ReadOutcome) -> ResponseAction {
    match read {
        ReadOutcome::H3(code) => ResponseAction::Close(code),
        ReadOutcome::Io(e) => ResponseAction::Fail(e),
        ReadOutcome::OtherFrame => ResponseAction::Close(ErrorCode::FrameUnexpected),
        ReadOutcome::Headers(Err(code)) => ResponseAction::Close(code),
        ReadOutcome::Headers(Ok(h)) => match response_status_of(h@) {
            None => ResponseAction::Close(ErrorCode::Message),
            Some(status) => if is_successful(status) {
                ResponseAction::Register
            } else {
                ResponseAction::Reject
            },
        },
    }
}

/// What a client does once the response frame was read.
///
/// Every fault of the HTTP/3 layer closes the connection with its code: a code
/// reported by the layer itself, `FrameUnexpected` for a frame that is not
/// HEADERS, `Message` for a response without a valid status. A 2xx status
/// leads to registration, any other status to a refusal.
pub fn response_action(read: ReadOutcome) -> (r: ResponseAction)
    ensures
        r == response_action_of(read),
{
    match read {
        ReadOutcome::H3(code) => ResponseAction::Close(code),
        ReadOutcome::Io(e) => ResponseAction::Fail(e),
        ReadOutcome::OtherFrame => ResponseAction::Close(ErrorCode::FrameUnexpected),
        ReadOutcome::Headers(Err(code)) => ResponseAction::Close(code),
        ReadOutcome::Headers(Ok(h)) => match response_status(&h) {
            None => ResponseAction::Close(ErrorCode::Message),
            Some(status) => if 200 <= status && status <= 299 {
                ResponseAction::Register
            } else {
                ResponseAction::Reject
            },
        },
    }
}

/// The fault of the HTTP/3 layer that a response read shows, if any.
pub open spec fn h3_fault_of(read: ReadOutcome) -> Option<ErrorCode> {
    match read {
        ReadOutcome::H3(code) => Some(code),
        ReadOutcome::OtherFrame => Some(ErrorCode::FrameUnexpected),
        ReadOutcome::Headers(Err(code)) => Some(code),
        ReadOutcome::Headers(Ok(h)) => if response_status_of(h@) is None {
            Some(ErrorCode::Message)
        } else {
            None
        },
        ReadOutcome::Io(_) => None,
    }
}


} // verus!
