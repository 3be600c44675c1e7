use wtransport::connect_target;
use wtransport::response_action;
use wtransport::response_status;
use wtransport::ClientAction;
use wtransport::ClientEvent;
use wtransport::ClientHandshake;
use wtransport::ClientStep;
use wtransport::ConnectingError;
use wtransport::ConnectionError;
use wtransport::Destination;
use wtransport::ErrorCode;
use wtransport::Headers;
use wtransport::ReadOutcome;
use wtransport::ResponseAction;
use wtransport::SocketAddress;
use wtransport::UrlHost;
use wtransport::UrlParts;
use wtransport::WriteOutcome;

fn status_headers(status: &str) -> Headers {
    let mut h = Headers::new();
    h.add(":status".to_string(), status.to_string());
    h
}

fn field(h: &Headers, i: usize) -> (String, String) {
    let (n, v) = h.field(i);
    (n.clone(), v.clone())
}

#[test]
fn invalid_scheme_is_refused() {
    assert_eq!(
        connect_target("http://example.com/"),
        Err(ConnectingError::InvalidUrl(
            "WebTransport URL scheme must be 'https'".to_string()
        ))
    );
}

#[test]
fn unparsable_url_is_invalid() {
    assert_eq!(
        connect_target("not a url"),
        Err(ConnectingError::InvalidUrl("relative URL without a base".to_string()))
    );
    assert_eq!(
        UrlParts::parse("https://exa mple.com/"),
        Err("invalid international domain name".to_string())
    );
}

#[test]
fn other_schemes_are_refused() {
    for url in ["wss://example.com/", "ftp://example.com/", "file:///tmp/x"] {
        assert_eq!(
            connect_target(url),
            Err(ConnectingError::InvalidUrl(
                "WebTransport URL scheme must be 'https'".to_string()
            ))
        );
    }
}

#[test]
fn domain_target_is_looked_up_on_default_port() {
    let t = connect_target("https://example.invalid/").unwrap();
    assert_eq!(
        t.destination,
        Destination::Lookup { host: "example.invalid".to_string(), port: 443 }
    );
    assert_eq!(t.server_name, "example.invalid");
    assert_eq!(field(&t.request, 0), (":method".to_string(), "CONNECT".to_string()));
    assert_eq!(field(&t.request, 1), (":scheme".to_string(), "https".to_string()));
    assert_eq!(field(&t.request, 2), (":protocol".to_string(), "webtransport".to_string()));
    assert_eq!(field(&t.request, 3), (":authority".to_string(), "example.invalid".to_string()));
    assert_eq!(field(&t.request, 4), (":path".to_string(), "/".to_string()));
}

#[test]
fn ipv4_target_connects_directly() {
    let t = connect_target("https://127.0.0.1:4433/chat?room=1").unwrap();
    assert_eq!(
        t.destination,
        Destination::Address(SocketAddress::V4 { ip: 0x7f00_0001, port: 4433 })
    );
    assert_eq!(t.server_name, "127.0.0.1");
    assert_eq!(field(&t.request, 3), (":authority".to_string(), "127.0.0.1:4433".to_string()));
    assert_eq!(field(&t.request, 4), (":path".to_string(), "/chat?room=1".to_string()));
}

#[test]
fn ipv6_target_connects_directly() {
    let t = connect_target("https://[::1]/").unwrap();
    assert_eq!(t.destination, Destination::Address(SocketAddress::V6 { ip: 1, port: 443 }));
    assert_eq!(t.server_name, "::1");
}

#[test]
fn url_parts_are_read() {
    let p = UrlParts::parse("https://example.com:8443/a/b?x=y").unwrap();
    assert_eq!(p.scheme, "https");
    assert_eq!(p.host, Some(UrlHost::Domain("example.com".to_string())));
    assert_eq!(p.port, Some(8443));
    assert_eq!(p.authority, "example.com:8443");
    assert_eq!(p.path, "/a/b");
    assert_eq!(p.query, Some("x=y".to_string()));
}

#[test]
fn url_without_host_is_invalid() {
    let p = UrlParts {
        scheme: "https".to_string(),
        host: None,
        port: None,
        authority: String::new(),
        path: "/".to_string(),
        query: None,
    };
    assert_eq!(
        p.target(),
        Err(ConnectingError::InvalidUrl("WebTransport URL must have a host".to_string()))
    );
}

#[test]
fn response_status_values() {
    assert_eq!(response_status(&status_headers("200")), Some(200));
    assert_eq!(response_status(&status_headers("299")), Some(299));
    assert_eq!(response_status(&status_headers("100")), Some(100));
    assert_eq!(response_status(&status_headers("599")), Some(599));
    assert_eq!(response_status(&status_headers("20x")), None);
    assert_eq!(response_status(&Headers::new()), None);
}


/// Drives a handshake to `https://example.com/` up to the response read.
fn at_response(session_id: u64) -> ClientHandshake {
    let (mut h, a) = ClientHandshake::start("https://example.com/").unwrap();
    assert_eq!(a, ClientAction::Lookup);
    let addr = SocketAddress::V4 { ip: 0x5db8_d822, port: 443 };
    assert_eq!(
        h.on_event(ClientEvent::Resolved(Ok(Some(addr)))),
        ClientAction::QuicConnect { address: addr }
    );
    assert_eq!(h.on_event(ClientEvent::QuicConnected(Ok(()))), ClientAction::AwaitSettings);
    assert_eq!(h.on_event(ClientEvent::SettingsAccepted(Ok(()))), ClientAction::OpenSession);
    assert_eq!(
        h.on_event(ClientEvent::SessionOpened(Ok(session_id))),
        ClientAction::WriteRequest
    );
    assert_eq!(
        h.on_event(ClientEvent::RequestWritten(WriteOutcome::Written)),
        ClientAction::ReadResponse
    );
    assert_eq!(h.step(), ClientStep::ReadingResponse);
    h
}

#[test]
fn invalid_scheme_starts_nothing() {
    assert!(matches!(
        ClientHandshake::start("http://example.com/"),
        Err(ConnectingError::InvalidUrl(m)) if m == "WebTransport URL scheme must be 'https'"
    ));
}

#[test]
fn dns_not_found() {
    let (mut h, a) = ClientHandshake::start("https://example.invalid/").unwrap();
    assert_eq!(a, ClientAction::Lookup);
    assert_eq!(
        h.target().destination,
        Destination::Lookup { host: "example.invalid".to_string(), port: 443 }
    );
    assert_eq!(
        h.on_event(ClientEvent::Resolved(Ok(None))),
        ClientAction::Fail(ConnectingError::DnsNotFound)
    );
    assert_eq!(h.step(), ClientStep::Finished);
}

#[test]
fn dns_lookup_error() {
    let (mut h, _) = ClientHandshake::start("https://example.com/").unwrap();
    assert_eq!(
        h.on_event(ClientEvent::Resolved(Err("no resolver".to_string()))),
        ClientAction::Fail(ConnectingError::DnsLookup("no resolver".to_string()))
    );
}

#[test]
fn ip_literal_connects_without_lookup() {
    let (h, a) = ClientHandshake::start("https://10.0.0.1:9000/").unwrap();
    assert_eq!(a, ClientAction::QuicConnect { address: SocketAddress::V4 { ip: 0x0a00_0001, port: 9000 } });
    assert_eq!(h.step(), ClientStep::Connecting);
    assert_eq!(h.target().server_name, "10.0.0.1");
}

#[test]
fn successful_client_connect() {
    let mut h = at_response(0);
    let read = ReadOutcome::Headers(Ok(status_headers("200")));
    assert!(h.answered_by(&ClientEvent::ResponseRead(ReadOutcome::OtherFrame)));
    assert_eq!(h.on_event(ClientEvent::ResponseRead(read)), ClientAction::Register);
    assert_eq!(h.step(), ClientStep::Registering);
    assert_eq!(
        h.on_event(ClientEvent::Registered(Ok(()))),
        ClientAction::Connected { session_id: 0 }
    );
    assert_eq!(h.step(), ClientStep::Finished);
}

#[test]
fn connected_reports_opened_session_id() {
    let mut h = at_response(8);
    h.on_event(ClientEvent::ResponseRead(ReadOutcome::Headers(Ok(status_headers("204")))));
    assert_eq!(
        h.on_event(ClientEvent::Registered(Ok(()))),
        ClientAction::Connected { session_id: 8 }
    );
}

#[test]
fn session_rejected_by_status() {
    let mut h = at_response(0);
    assert_eq!(
        h.on_event(ClientEvent::ResponseRead(ReadOutcome::Headers(Ok(status_headers("404"))))),
        ClientAction::Fail(ConnectingError::SessionRejected)
    );
    assert_eq!(h.step(), ClientStep::Finished);
    assert!(!h.answered_by(&ClientEvent::Registered(Ok(()))));
}

#[test]
fn session_rejected_by_stopped_stream() {
    let (mut h, _) = ClientHandshake::start("https://127.0.0.1/").unwrap();
    h.on_event(ClientEvent::QuicConnected(Ok(())));
    h.on_event(ClientEvent::SettingsAccepted(Ok(())));
    h.on_event(ClientEvent::SessionOpened(Ok(0)));
    assert_eq!(
        h.on_event(ClientEvent::RequestWritten(WriteOutcome::Stopped)),
        ClientAction::Fail(ConnectingError::SessionRejected)
    );
}

#[test]
fn request_write_not_connected() {
    let (mut h, _) = ClientHandshake::start("https://127.0.0.1/").unwrap();
    h.on_event(ClientEvent::QuicConnected(Ok(())));
    h.on_event(ClientEvent::SettingsAccepted(Ok(())));
    h.on_event(ClientEvent::SessionOpened(Ok(0)));
    let e = ConnectionError::Quic("closed".to_string());
    assert_eq!(
        h.on_event(ClientEvent::RequestWritten(WriteOutcome::NotConnected(e.clone()))),
        ClientAction::Fail(ConnectingError::ConnectionError(e))
    );
}

#[test]
fn unexpected_frame_closes_connection() {
    let mut h = at_response(0);
    assert_eq!(
        h.on_event(ClientEvent::ResponseRead(ReadOutcome::OtherFrame)),
        ClientAction::CloseAndFail {
            code: ErrorCode::FrameUnexpected.to_code(),
            error: ConnectingError::ConnectionError(ConnectionError::LocalH3Error(
                ErrorCode::FrameUnexpected
            )),
        }
    );
    assert_eq!(ErrorCode::FrameUnexpected.to_code(), 0x105);
}

#[test]
fn h3_read_error_closes_with_its_code() {
    let mut h = at_response(0);
    assert_eq!(
        h.on_event(ClientEvent::ResponseRead(ReadOutcome::H3(ErrorCode::Frame))),
        ClientAction::CloseAndFail {
            code: 0x106,
            error: ConnectingError::ConnectionError(ConnectionError::LocalH3Error(ErrorCode::Frame)),
        }
    );
    let mut h = at_response(0);
    assert_eq!(
        h.on_event(ClientEvent::ResponseRead(ReadOutcome::Headers(Err(
            ErrorCode::DecompressionFailed
        )))),
        ClientAction::CloseAndFail {
            code: 0x200,
            error: ConnectingError::ConnectionError(ConnectionError::LocalH3Error(
                ErrorCode::DecompressionFailed
            )),
        }
    );
}

#[test]
fn bad_status_closes_with_message() {
    for status in ["abc", "2000", "20", "099", "600"] {
        assert_eq!(
            response_action(ReadOutcome::Headers(Ok(status_headers(status)))),
            ResponseAction::Close(ErrorCode::Message)
        );
    }
    let mut h = at_response(0);
    assert_eq!(
        h.on_event(ClientEvent::ResponseRead(ReadOutcome::Headers(Ok(Headers::new())))),
        ClientAction::CloseAndFail {
            code: 0x10e,
            error: ConnectingError::ConnectionError(ConnectionError::LocalH3Error(ErrorCode::Message)),
        }
    );
}

#[test]
fn io_read_error_fails_without_close() {
    let e = ConnectionError::Quic("reset".to_string());
    assert_eq!(response_action(ReadOutcome::Io(e.clone())), ResponseAction::Fail(e.clone()));
    let mut h = at_response(0);
    assert_eq!(
        h.on_event(ClientEvent::ResponseRead(ReadOutcome::Io(e.clone()))),
        ClientAction::Fail(ConnectingError::ConnectionError(e))
    );
}

#[test]
fn driver_failures_surface_as_connection_errors() {
    let e = ConnectionError::Driver("settings".to_string());
    let (mut h, _) = ClientHandshake::start("https://127.0.0.1/").unwrap();
    h.on_event(ClientEvent::QuicConnected(Ok(())));
    assert_eq!(
        h.on_event(ClientEvent::SettingsAccepted(Err(e.clone()))),
        ClientAction::Fail(ConnectingError::ConnectionError(e.clone()))
    );
    let mut h = at_response(3);
    h.on_event(ClientEvent::ResponseRead(ReadOutcome::Headers(Ok(status_headers("200")))));
    assert_eq!(
        h.on_event(ClientEvent::Registered(Err(e.clone()))),
        ClientAction::Fail(ConnectingError::ConnectionError(e))
    );
}

#[test]
fn quic_failure_surfaces() {
    let e = ConnectionError::Quic("timed out".to_string());
    let (mut h, _) = ClientHandshake::start("https://[::1]/").unwrap();
    assert_eq!(
        h.on_event(ClientEvent::QuicConnected(Err(e.clone()))),
        ClientAction::Fail(ConnectingError::ConnectionError(e))
    );
}
