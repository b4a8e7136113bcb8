//! The HTTP proxy engine's verified core: the transport choice, target
//! derivation from a decoded request, the keep-alive decision and header
//! rewrite for forwarding, and the tunnel acknowledgment bytes.
//!
//! The decoded client request is an `http_types::Request`; this module reads
//! and rewrites its header set through a small trusted boundary and proves
//! the rewrite over a model of that set.

use vstd::prelude::*;
use vstd::string::StringExecFns;
use vstd::string::StrSliceExecFns;
use crate::error::Error;
use crate::num::dec_seq;
use crate::num::dec_string;
use crate::target::derive_target;

verus! {

/// How upstream connections are opened: directly, or through the SOCKS5
/// proxy at the carried address.
#[derive(Debug)]
pub enum Transport {
    Direct,
    Socks5(String),
}

/// The proxy engine's configuration: one transport value, chosen at startup
/// and never changed afterwards.
#[derive(Debug)]
pub struct HttpProxy {
    pub transport: Transport,
}

impl HttpProxy {
    /// A proxy that opens upstream connections directly.
    pub fn direct() -> (r: Self)
        ensures
            r.transport is Direct,
    {
        HttpProxy { transport: Transport::Direct }
    }

    /// A proxy that opens upstream connections through the SOCKS5 proxy at
    /// `socks5`.
    pub fn via_socks5(socks5: String) -> (r: Self)
        ensures
            r.transport matches Transport::Socks5(a) && a@ == socks5@,
    {
        HttpProxy { transport: Transport::Socks5(socks5) }
    }
}

/// The `host:port` authority string for a derived target.
pub fn make_authority(host: &str, port: u16) -> (r: String)
    ensures
        r@ == host@ + ":"@ + dec_seq(port as nat),
{
    let mut s = String::from_str(host);
    s.append(":");
    let d = dec_string(port);
    s.append(d.as_str());
    s
}

/// The literal acknowledgment a CONNECT client reads before any relayed
/// bytes: the status line and a blank line, no other headers.
pub open spec fn tunnel_ack() -> Seq<char> {
    "HTTP/1.1 200 Connection established\r\n\r\n"@
}

/// The acknowledgment sent to the client once a CONNECT upstream connection
/// stands.
pub fn tunnel_established_line() -> (r: &'static str)
    ensures
        r@ == tunnel_ack(),
{
    "HTTP/1.1 200 Connection established\r\n\r\n"
}

/// The acknowledgment as the raw bytes put on the wire: one byte per
/// character of the status line, each its ASCII code.
pub fn tunnel_established_bytes() -> (r: Vec<u8>)
    ensures
        r@.len() == tunnel_ack().len(),
        forall|i: int| 0 <= i < r@.len() ==> r@[i] == tunnel_ack()[i] as u8,
{
    let s = tunnel_established_line();
    proof {
        reveal_strlit("HTTP/1.1 200 Connection established\r\n\r\n");
        assert(vstd::string::is_ascii(s));
        vstd::string::is_ascii_spec_bytes(s);
    }
    s.as_bytes_vec()
}

#[verifier::external_type_specification]
#[verifier::external_body]
pub struct ExRequest(http_types::Request);

/// The header set a request carries: each lowercased header name mapped to
/// the list of values stored under it, in order.
pub uninterp spec fn req_headers(r: http_types::Request) -> Map<Seq<char>, Seq<Seq<char>>>;

/// The lowercased name of the hop-by-hop `Proxy-Connection` header.
pub open spec fn pc_key() -> Seq<char> {
    "proxy-connection"@
}

/// The lowercased name of the `Connection` header.
pub open spec fn conn_key() -> Seq<char> {
    "connection"@
}

/// Relies on `Request::header`, which looks a header up under its lowercased
/// name: returns the values stored under `Proxy-Connection`, or nothing when
/// the request has no such header.
#[verifier::external_body]
fn proxy_connection_values(req: &http_types::Request) -> (r: Option<Vec<String>>)
    ensures
        match r {
            Some(vs) => req_headers(*req).contains_key(pc_key()) && vs.deep_view() == req_headers(
                *req,
            )[pc_key()],
            None => !req_headers(*req).contains_key(pc_key()),
        },
{
    req.header("Proxy-Connection").map(|hv| hv.iter().map(|v| v.as_str().to_owned()).collect())
}

/// Relies on `Request::remove_header`, which removes exactly the entry under
/// the lowercased name `proxy-connection` and touches no other.
#[verifier::external_body]
fn remove_proxy_connection(req: &mut http_types::Request)
    ensures
        req_headers(*final(req)) == req_headers(*old(req)).remove(pc_key()),
{
    req.remove_header("Proxy-Connection");
}

/// Relies on `Request::insert_header`, which replaces the entry under the
/// lowercased name `connection` with the one given value and touches no
/// other. It panics on a non-ASCII value, so only ASCII values are accepted.
#[verifier::external_body]
fn insert_connection(req: &mut http_types::Request, value: &str)
    requires
        vstd::string::is_ascii(value),
    ensures
        req_headers(*final(req)) == req_headers(*old(req)).insert(conn_key(), seq![value@]),
{
    req.insert_header("Connection", value);
}

/// The scheme of a request's URL, a function of the request alone.
pub uninterp spec fn url_scheme(r: http_types::Request) -> Seq<char>;

/// The host string of a request's URL, if it has one.
pub uninterp spec fn url_host(r: http_types::Request) -> Option<Seq<char>>;

/// The explicit port of a request's URL, if it has one.
pub uninterp spec fn url_port(r: http_types::Request) -> Option<u16>;

/// Relies on `Request::url` and the URL accessors `scheme`, `host_str` and
/// `port`: hands the three out as plain values. Each accessor is a pure
/// read of the parsed URL the request carries.
#[verifier::external_body]
fn url_parts(req: &http_types::Request) -> (r: (String, Option<String>, Option<u16>))
    ensures
        r.0@ == url_scheme(*req),
        match r.1 {
            Some(h) => url_host(*req) == Some(h@),
            None => url_host(*req) is None,
        },
        r.2 == url_port(*req),
{
    let url = req.url();
    (url.scheme().to_owned(), url.host_str().map(|h| h.to_owned()), url.port())
}

/// Derives the upstream target of a decoded request from its URL.
///
/// The result is exactly `target_of` over the URL's scheme, host string and
/// explicit port: a URL without a host is a bad request, a malformed
/// authority port a parse error, and anything else the derived target.
pub fn host_port_from_req(req: &http_types::Request) -> (r: Result<(String, u16), Error>)
    ensures
        match url_host(*req) {
            None => r matches Err(e) && e is BadRequest,
            Some(h) => match crate::target::target_of(url_scheme(*req), h, url_port(*req)) {
                Some(t) => r matches Ok(got) && got.0@ == t.0 && got.1 == t.1,
                None => r matches Err(e) && e is Parse,
            },
        },
{
    let (scheme, host, port) = url_parts(req);
    match host {
        None => derive_target(scheme.as_str(), None, port),
        Some(h) => derive_target(scheme.as_str(), Some(h.as_str()), port),
    }
}

/// Rewrites a request for forwarding and decides keep-alive.
///
/// Keep-alive holds exactly when the client sent `Proxy-Connection` with the
/// single value `Keep-Alive`, compared case-sensitively. The
/// `Proxy-Connection` header is removed unconditionally, and `Connection` is
/// set to `Keep-Alive` or `close` accordingly — so the forwarded request
/// never carries `Proxy-Connection`.
pub fn prepare_forward(req: &mut http_types::Request) -> (keep_alive: bool)
    ensures
        keep_alive <==> (req_headers(*old(req)).contains_key(pc_key()) && req_headers(*old(req))[pc_key()]
            == seq!["Keep-Alive"@]),
        req_headers(*final(req)) == req_headers(*old(req)).remove(pc_key()).insert(
            conn_key(),
            if keep_alive {
                seq!["Keep-Alive"@]
            } else {
                seq!["close"@]
            },
        ),
        !req_headers(*final(req)).contains_key(pc_key()),
{
    let keep_alive = match proxy_connection_values(req) {
        Some(vs) => {
            if vs.len() == 1 {
                let ka = String::from_str("Keep-Alive");
                let r = vs[0] == ka;
                proof {
                    assert(vs.deep_view().len() == 1);
                    assert(vs.deep_view()[0] == vs@[0]@);
                    if r {
                        assert(vs.deep_view() =~= seq!["Keep-Alive"@]);
                    } else {
                        assert(vs.deep_view() != seq!["Keep-Alive"@]);
                    }
                }
                r
            } else {
                proof {
                    assert(vs.deep_view().len() == vs@.len());
                    assert(seq!["Keep-Alive"@].len() == 1);
                }
                false
            }
        },
        None => false,
    };
    remove_proxy_connection(req);
    proof {
        reveal_strlit("Keep-Alive");
        reveal_strlit("close");
    }
    if keep_alive {
        insert_connection(req, "Keep-Alive");
    } else {
        insert_connection(req, "close");
    }
    proof {
        reveal_strlit("proxy-connection");
        reveal_strlit("connection");
        assert(pc_key().len() == 16);
        assert(conn_key().len() == 10);
        assert(pc_key() != conn_key());
    }
    keep_alive
}

#[verifier::external_type_specification]
#[verifier::external_body]
pub struct ExResponse(http_types::Response);

/// The header set a response carries: each lowercased header name mapped to
/// the list of values stored under it, in order.
pub uninterp spec fn resp_headers(r: http_types::Response) -> Map<Seq<char>, Seq<Seq<char>>>;

/// Relies on `Response::insert_header`, which replaces the entry under the
/// lowercased name `connection` with the one given value and touches no
/// other. It panics on a non-ASCII value, so only ASCII values are accepted.
#[verifier::external_body]
fn insert_response_connection(resp: &mut http_types::Response, value: &str)
    requires
        vstd::string::is_ascii(value),
    ensures
        resp_headers(*final(resp)) == resp_headers(*old(resp)).insert(conn_key(), seq![value@]),
{
    resp.insert_header("Connection", value);
}

/// Marks the response of a single-exchange forward as closing: the client is
/// told that the connection ends after this one response.
pub fn prepare_close_response(resp: &mut http_types::Response)
    ensures
        resp_headers(*final(resp)) == resp_headers(*old(resp)).insert(conn_key(), seq!["close"@]),
        resp_headers(*final(resp)).contains_key(conn_key()),
        resp_headers(*final(resp))[conn_key()] == seq!["close"@],
{
    proof {
        reveal_strlit("close");
    }
    insert_response_connection(resp, "close");
}

} // verus!
