use wtransport::contains_subslice;
use wtransport::send_outcome;
use wtransport::ConnectionError;
use wtransport::ErrorCode;
use wtransport::Headers;
use wtransport::Ipv6DualStackConfig;
use wtransport::SendOutcome;
use wtransport::SessionRequest;
use wtransport::SocketPlan;
use wtransport::WriteOutcome;

fn connect_headers(user_agent: Option<&str>) -> Headers {
    let mut h = Headers::new();
    h.add(":method".to_string(), "CONNECT".to_string());
    h.add(":protocol".to_string(), "webtransport".to_string());
    h.add(":scheme".to_string(), "https".to_string());
    h.add(":authority".to_string(), "example.com:4433".to_string());
    h.add(":path".to_string(), "/chat".to_string());
    if let Some(ua) = user_agent {
        h.add("user-agent".to_string(), ua.to_string());
    }
    h
}

fn fields(h: &Headers) -> Vec<(String, String)> {
    (0..h.len()).map(|i| {
        let (n, v) = h.field(i);
        (n.clone(), v.clone())
    }).collect()
}

fn draft() -> (String, String) {
    ("sec-webtransport-http3-draft".to_string(), "draft02".to_string())
}

#[test]
fn server_accept_chrome_header() {
    let req = SessionRequest::new(connect_headers(Some("Chrome/123")), 0, 0).unwrap();
    assert_eq!(
        fields(&req.accept_response()),
        vec![(":status".to_string(), "200".to_string()), draft()]
    );
}

#[test]
fn server_accept_firefox_omits_header() {
    let req = SessionRequest::new(connect_headers(Some("Mozilla/5.0 firefox/124.0")), 0, 0)
        .unwrap();
    assert_eq!(
        fields(&req.accept_response()),
        vec![(":status".to_string(), "200".to_string())]
    );
}

#[test]
fn firefox_match_is_case_sensitive() {
    let req = SessionRequest::new(connect_headers(Some("Mozilla/5.0 Firefox/124.0")), 0, 0)
        .unwrap();
    assert_eq!(fields(&req.accept_response())[1], draft());
}

#[test]
fn missing_user_agent_gets_header() {
    let req = SessionRequest::new(connect_headers(None), 0, 0).unwrap();
    assert_eq!(req.user_agent(), None);
    assert_eq!(
        fields(&req.not_found_response()),
        vec![(":status".to_string(), "404".to_string()), draft()]
    );
}

#[test]
fn not_found_response_for_firefox() {
    let req = SessionRequest::new(connect_headers(Some("firefox")), 0, 0).unwrap();
    assert_eq!(
        fields(&req.not_found_response()),
        vec![(":status".to_string(), "404".to_string())]
    );
}

#[test]
fn accessors_return_decoded_fields() {
    let mut h = connect_headers(Some("Chrome/123"));
    h.add("origin".to_string(), "https://example.com".to_string());
    let req = SessionRequest::new(h.clone(), 8, 4).unwrap();
    assert_eq!(req.authority(), "example.com:4433");
    assert_eq!(req.path(), "/chat");
    assert_eq!(req.origin(), Some("https://example.com"));
    assert_eq!(req.user_agent(), Some("Chrome/123"));
    assert_eq!(req.headers(), &h);
    assert_eq!(req.stream_id(), 8);
    assert_eq!(req.session_id(), 4);
}

#[test]
fn request_without_path_is_refused() {
    let mut h = Headers::new();
    h.add(":authority".to_string(), "example.com".to_string());
    assert!(SessionRequest::new(h, 0, 0).is_none());
    let mut h = Headers::new();
    h.add(":path".to_string(), "/".to_string());
    assert!(SessionRequest::new(h, 0, 0).is_none());
}

#[test]
fn established_session_has_stream_session_id() {
    let req = SessionRequest::new(connect_headers(None), 12, 12).unwrap();
    assert_eq!(req.established(Ok(())), Ok(12));
    let e = ConnectionError::Driver("gone".to_string());
    assert_eq!(req.established(Err(e.clone())), Err(e));
}

#[test]
fn send_response_outcomes() {
    assert_eq!(send_outcome(WriteOutcome::Written), SendOutcome::Sent);
    assert_eq!(
        send_outcome(WriteOutcome::Stopped),
        SendOutcome::Close {
            code: ErrorCode::ClosedCriticalStream,
            error: ConnectionError::LocalH3Error(ErrorCode::ClosedCriticalStream),
        }
    );
    let e = ConnectionError::Quic("lost".to_string());
    assert_eq!(send_outcome(WriteOutcome::NotConnected(e.clone())), SendOutcome::Fail(e));
}

#[test]
fn error_code_values() {
    assert_eq!(ErrorCode::ClosedCriticalStream.to_code(), 0x104);
    assert_eq!(ErrorCode::FrameUnexpected.to_code(), 0x105);
    assert_eq!(ErrorCode::Message.to_code(), 0x10e);
    assert_eq!(ErrorCode::NoError.to_code(), 0x100);
    assert_eq!(ErrorCode::DecoderStream.to_code(), 0x202);
}

#[test]
fn socket_plan_follows_policy() {
    assert_eq!(
        SocketPlan::new(true, Ipv6DualStackConfig::OsDefault),
        SocketPlan { ipv6: true, only_v6: None }
    );
    assert_eq!(
        SocketPlan::new(true, Ipv6DualStackConfig::Deny),
        SocketPlan { ipv6: true, only_v6: Some(true) }
    );
    assert_eq!(
        SocketPlan::new(true, Ipv6DualStackConfig::Allow),
        SocketPlan { ipv6: true, only_v6: Some(false) }
    );
    assert_eq!(
        SocketPlan::new(false, Ipv6DualStackConfig::Deny),
        SocketPlan { ipv6: false, only_v6: Some(true) }
    );
}

#[test]
fn header_add_replaces_same_name() {
    let mut h = Headers::new();
    h.add("a".to_string(), "1".to_string());
    h.add("b".to_string(), "x".to_string());
    h.add("a".to_string(), "2".to_string());
    assert_eq!(h.get("a"), Some(&"2".to_string()));
    assert_eq!(h.get("b"), Some(&"x".to_string()));
    assert_eq!(h.get("c"), None);
    assert_eq!(h.len(), 2);
    let (n, v) = h.field(0);
    assert_eq!((n.as_str(), v.as_str()), ("a", "2"));
    assert_eq!(h.clone(), h);
}

#[test]
fn no_connection_error_keeps_reason() {
    let e = ConnectionError::NoConnection(Some("closed by peer".to_string()));
    assert_eq!(
        send_outcome(WriteOutcome::NotConnected(e.clone())),
        SendOutcome::Fail(e)
    );
}

#[test]
fn byte_search_edges() {
    assert!(contains_subslice(b"Mozilla firefox/1", b"firefox"));
    assert!(contains_subslice(b"firefox", b"firefox"));
    assert!(!contains_subslice(b"firefo", b"firefox"));
    assert!(!contains_subslice(b"Firefox", b"firefox"));
    assert!(contains_subslice(b"", b""));
    assert!(contains_subslice(b"abc", b""));
    assert!(contains_subslice(b"xxfirefox", b"firefox"));
}
