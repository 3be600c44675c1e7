use vstd::prelude::*;
use crate::error::ConnectingError;
use crate::headers::FieldView;
use crate::headers::Headers;
use crate::headers::lemma_lookup_absent;
use crate::session::opt_view;
use url::Host::Domain;
use url::Host::Ipv4;
use url::Host::Ipv6;

verus! {

/// A socket address that a client connects to.
#[derive(Clone, Copy, Debug, PartialEq, Eq, Structural)]
pub enum SocketAddress {
    /// An IPv4 address, most significant byte first, and a port.
    V4 { ip: u32, port: u16 },
    /// An IPv6 address, most significant byte first, and a port.
    V6 { ip: u128, port: u16 },
}

/// The host of a URL.
#[derive(Clone, Debug, PartialEq, Eq)]
pub enum UrlHost {
    /// A domain name.
    Domain(String),
    /// An IPv4 address, most significant byte first, with its textual form.
    Ipv4 { ip: u32, text: String },
    /// An IPv6 address, most significant byte first, with its textual form.
    Ipv6 { ip: u128, text: String },
}

/// A host as the contracts see it.
pub enum HostView {
    Domain(Seq<char>),
    Ipv4 { ip: u32, text: Seq<char> },
    Ipv6 { ip: u128, text: Seq<char> },
}

impl View for UrlHost {
    type V = HostView;

    open spec fn view(&self) -> HostView {
        match self {
            UrlHost::Domain(d) => HostView::Domain(d@),
            UrlHost::Ipv4 { ip, text } => HostView::Ipv4 { ip: *ip, text: text@ },
            UrlHost::Ipv6 { ip, text } => HostView::Ipv6 { ip: *ip, text: text@ },
        }
    }
}

/// View of an optional host.
pub open spec fn opt_host_view(h: Option<UrlHost>) -> Option<HostView> {
    match h {
        Some(v) => Some(v@),
        None => None,
    }
}

/// The parts of a parsed URL that a WebTransport client reads.
#[derive(Clone, Debug, PartialEq, Eq)]
pub struct UrlParts {
    /// The scheme, lower-cased, without `:`.
    pub scheme: String,
    /// The host, if the URL has one.
    pub host: Option<UrlHost>,
    /// The port, if the URL names one other than its scheme's default.
    pub port: Option<u16>,
    /// The authority: user information, host and port.
    pub authority: String,
    /// The path.
    pub path: String,
    /// The query, without `?`, if the URL has one.
    pub query: Option<String>,
}

/// Where a client sends its QUIC connection.
#[derive(Clone, Debug, PartialEq, Eq)]
pub enum Destination {
    /// Resolve `host:port` by DNS and take the first address.
    Lookup { host: String, port: u16 },
    /// Connect to this address.
    Address(SocketAddress),
}

/// Everything a client needs to open a session at a URL.
#[derive(Clone, Debug, PartialEq, Eq)]
pub struct ConnectTarget {
    /// Where the QUIC connection goes.
    pub destination: Destination,
    /// The server name for TLS: the host as the URL writes it.
    pub server_name: String,
    /// The fields of the CONNECT request.
    pub request: Headers,
}

/// Text of the error for a URL whose scheme is not `https`.
pub open spec fn scheme_error_text() -> Seq<char> {
    "WebTransport URL scheme must be 'https'"@
}

/// Text of the error for a URL without a host.
pub open spec fn host_error_text() -> Seq<char> {
    "WebTransport URL must have a host"@
}

/// The port a client connects to: the URL's, or 443.
pub open spec fn port_of(port: Option<u16>) -> u16 {
    match port {
        Some(p) => p,
        None => 443,
    }
}

/// The textual form of a host.
pub open spec fn host_text(h: HostView) -> Seq<char> {
    match h {
        HostView::Domain(d) => d,
        HostView::Ipv4 { text, .. } => text,
        HostView::Ipv6 { text, .. } => text,
    }
}

/// Whether `dest` is where a client connects for a host and a port.
pub open spec fn destination_matches(dest: Destination, h: HostView, port: u16) -> bool {
    match h {
        HostView::Domain(d) => (dest matches Destination::Lookup { host, port: p } && host@ == d
            && p == port),
        HostView::Ipv4 { ip, .. } => dest == Destination::Address(SocketAddress::V4 { ip, port }),
        HostView::Ipv6 { ip, .. } => dest == Destination::Address(SocketAddress::V6 { ip, port }),
    }
}

/// The `:path` of a request: the path, then `?` and the query if there is one.
pub open spec fn request_path(path: Seq<char>, query: Option<Seq<char>>) -> Seq<char> {
    match query {
        Some(q) => path + "?"@ + q,
        None => path,
    }
}

/// The fields of an extended CONNECT request that opens a WebTransport session.
pub open spec fn request_fields(authority: Seq<char>, path: Seq<char>) -> Seq<FieldView> {
    seq![
        (":method"@, "CONNECT"@),
        (":scheme"@, "https"@),
        (":protocol"@, "webtransport"@),
        (":authority"@, authority),
        (":path"@, path),
    ]
}

/// Whether `r` is what a client's URL step gives for a URL with these parts:
/// `InvalidUrl` for a scheme other than `https` or a missing host, and else
/// the destination, server name and CONNECT request of the host.
pub open spec fn target_describes(
    scheme: Seq<char>,
    host: Option<HostView>,
    port: Option<u16>,
    authority: Seq<char>,
    path: Seq<char>,
    query: Option<Seq<char>>,
    r: Result<ConnectTarget, ConnectingError>,
) -> bool {
    if scheme != "https"@ {
        (r matches Err(ConnectingError::InvalidUrl(m)) && m@ == scheme_error_text())
    } else {
        match host {
            None => (r matches Err(ConnectingError::InvalidUrl(m)) && m@ == host_error_text()),
            Some(h) => (r matches Ok(t) && destination_matches(t.destination, h, port_of(port))
                && t.server_name@ == host_text(h) && t.request@ == request_fields(
                authority,
                request_path(path, query),
            )),
        }
    }
}

/// Whether `r` is what a client's URL step gives for the URL `input`: the
/// parser's message for a URL that does not parse, and else what the parts
/// of the URL give.
pub open spec fn target_of_url(input: Seq<char>, r: Result<ConnectTarget, ConnectingError>) -> bool {
    if !url_parses(input) {
        (r matches Err(ConnectingError::InvalidUrl(m)) && m@ == url_parse_error_of(input))
    } else {
        target_describes(
            url_scheme_of(input),
            url_host_of(input),
            url_port_of(input),
            url_authority_of(input),
            url_path_of(input),
            url_query_of(input),
            r,
        )
    }
}

fn text(s: &str) -> (r: String)
    ensures
        r@ == s@,
{
    s.to_owned()
}

impl UrlParts {
    /// Where and how a client opens a session at this URL.
    ///
    /// It fails with `InvalidUrl` when the scheme is not `https` or there is
    /// no host, and does no network work at all.
    pub fn target(&self) -> (r: Result<ConnectTarget, ConnectingError>)
        ensures
            target_describes(
                self.scheme@,
                opt_host_view(self.host),
                self.port,
                self.authority@,
                self.path@,
                opt_view(self.query),
                r,
            ),
    {
        let https = text("https");
        if self.scheme != https {
            return Err(ConnectingError::InvalidUrl(text("WebTransport URL scheme must be 'https'")));
        }
        let port: u16 = match self.port {
            Some(p) => p,
            None => 443,
        };
        let (destination, server_name) = match &self.host {
            None => {
                return Err(ConnectingError::InvalidUrl(text("WebTransport URL must have a host")));
            },
            Some(UrlHost::Domain(d)) => (Destination::Lookup { host: d.clone(), port }, d.clone()),
            Some(UrlHost::Ipv4 { ip, text }) => (
                Destination::Address(SocketAddress::V4 { ip: *ip, port }),
                text.clone(),
            ),
            Some(UrlHost::Ipv6 { ip, text }) => (
                Destination::Address(SocketAddress::V6 { ip: *ip, port }),
                text.clone(),
            ),
        };
        let mut path = self.path.clone();
        match &self.query {
            Some(q) => {
                path.append("?");
                path.append(q.as_str());
            },
            None => {},
        }
        proof {
            reveal_strlit(":method");
            reveal_strlit(":scheme");
            reveal_strlit(":protocol");
            reveal_strlit(":authority");
            reveal_strlit(":path");
        }
        let mut request = Headers::new();
        request.add(text(":method"), text("CONNECT"));
        proof {
            assert(":method"@[1] != ":scheme"@[1]);
            lemma_lookup_absent(request@, ":scheme"@);
        }
        request.add(text(":scheme"), text("https"));
        proof {
            assert(":method"@[1] != ":protocol"@[1] && ":scheme"@[1] != ":protocol"@[1]);
            lemma_lookup_absent(request@, ":protocol"@);
        }
        request.add(text(":protocol"), text("webtransport"));
        proof {
            assert(":method"@[1] != ":authority"@[1] && ":scheme"@[1] != ":authority"@[1]);
            assert(":protocol"@[1] != ":authority"@[1]);
            lemma_lookup_absent(request@, ":authority"@);
        }
        request.add(text(":authority"), self.authority.clone());
        proof {
            assert(":method"@[1] != ":path"@[1] && ":scheme"@[1] != ":path"@[1]);
            assert(":protocol"@.len() != ":path"@.len() && ":authority"@[1] != ":path"@[1]);
            lemma_lookup_absent(request@, ":path"@);
        }
        request.add(text(":path"), path);
        proof {
            assert(request@ =~= request_fields(
                self.authority@,
                request_path(self.path@, match self.query {
                    Some(q) => Some(q@),
                    None => None::<Seq<char>>,
                }),
            ));
        }
        Ok(ConnectTarget { destination, server_name, request })
    }
}

/// Whether the URL parser accepts `input`.
pub uninterp spec fn url_parses(input: Seq<char>) -> bool;

/// The message of the URL parser's error for `input`.
pub uninterp spec fn url_parse_error_of(input: Seq<char>) -> Seq<char>;

/// The scheme of the URL `input`, lower-cased, without `:`.
pub uninterp spec fn url_scheme_of(input: Seq<char>) -> Seq<char>;

/// The host of the URL `input`, if it has one.
pub uninterp spec fn url_host_of(input: Seq<char>) -> Option<HostView>;

/// The port of the URL `input`, if it names one other than its scheme's default.
pub uninterp spec fn url_port_of(input: Seq<char>) -> Option<u16>;

/// The authority of the URL `input`: user information, host and port.
pub uninterp spec fn url_authority_of(input: Seq<char>) -> Seq<char>;

/// The percent-encoded path of the URL `input`.
pub uninterp spec fn url_path_of(input: Seq<char>) -> Seq<char>;

/// The query of the URL `input`, without `?`, if there is one.
pub uninterp spec fn url_query_of(input: Seq<char>) -> Option<Seq<char>>;

/// Relies on url::Url::parse, and on its `scheme`, `host`, `port`,
/// `authority`, `path` and `query`: the parts of an absolute URL, or the
/// parser's error message. An IP host comes with its text as std writes it.
#[verifier::external_body]
fn parse_url(input: &str) -> (r: Result<UrlParts, String>)
    ensures
        r is Ok == url_parses(input@),
        r matches Err(e) ==> e@ == url_parse_error_of(input@),
        r matches Ok(p) ==> (p.scheme@ == url_scheme_of(input@) && opt_host_view(p.host)
            == url_host_of(input@) && p.port == url_port_of(input@) && p.authority@
            == url_authority_of(input@) && p.path@ == url_path_of(input@) && opt_view(p.query)
            == url_query_of(input@)),
{
    let u = url::Url::parse(input).map_err(|e| e.to_string())?;
    let host = u.host().map(|h| match h {
        Domain(d) => UrlHost::Domain(d.into()),
        Ipv4(a) => UrlHost::Ipv4 { ip: a.into(), text: a.to_string() },
        Ipv6(a) => UrlHost::Ipv6 { ip: a.into(), text: a.to_string() },
    });
    Ok(UrlParts {
        scheme: u.scheme().into(),
        host,
        port: u.port(),
        authority: u.authority().into(),
        path: u.path().into(),
        query: u.query().map(String::from),
    })
}

impl UrlParts {
    /// Parses a URL into the parts that a client reads, or gives the parser's
    /// error message.
    pub fn parse(input: &str) -> (r: Result<UrlParts, String>)
        ensures
            r is Ok == url_parses(input@),
            r matches Err(e) ==> e@ == url_parse_error_of(input@),
            r matches Ok(p) ==> (p.scheme@ == url_scheme_of(input@) && opt_host_view(p.host)
                == url_host_of(input@) && p.port == url_port_of(input@) && p.authority@
                == url_authority_of(input@) && p.path@ == url_path_of(input@) && opt_view(p.query)
                == url_query_of(input@)),
    {
        parse_url(input)
    }
}

/// Where and how a client opens a session at the URL `input`.
///
/// A URL that does not parse fails with `InvalidUrl` and the parser's message;
/// a parsed one gives what `UrlParts::target` gives for its parts. Either way no
/// network work is done.
pub fn connect_target(input: &str) -> (r: Result<ConnectTarget, ConnectingError>)
    ensures
        target_of_url(input@, r),
{
    match UrlParts::parse(input) {
        Ok(p) => p.target(),
        Err(e) => Err(ConnectingError::InvalidUrl(e)),
    }
}

} // verus!
