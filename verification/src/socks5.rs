//! The SOCKS5 client wire protocol: the bytes of the method-negotiation and
//! CONNECT requests, and an incremental parser for the server's reply.
//!
//! The parser is a step machine: `needed` says how many bytes to read next,
//! and `step` consumes exactly those bytes and moves on or fails. The caller
//! owns the stream and feeds the machine until it is done.

use vstd::prelude::*;
use vstd::string::StringExecFns;
use crate::error::Error;
use crate::num::dec_seq;
use crate::num::dec_string;

verus! {

/// The bound address carried by a SOCKS5 server reply. It is drained from
/// the stream and reported, but never used to route anything.
#[derive(Debug, Clone)]
pub enum Addr {
    IPv4([u8; 4]),
    DomainName(String),
    IPv6([u8; 16]),
}

/// The fixed message for a SOCKS5 reply status code, with numbered fallback
/// for codes outside the defined range.
pub open spec fn status_message(code: u8) -> Seq<char> {
    if code == 1 {
        "general socks server failure"@
    } else if code == 2 {
        "connection not allowed by ruleset"@
    } else if code == 3 {
        "network unreachable"@
    } else if code == 4 {
        "host unreachable"@
    } else if code == 5 {
        "connection refused"@
    } else if code == 6 {
        "ttl expired"@
    } else if code == 7 {
        "command not supported"@
    } else if code == 8 {
        "address type not supported"@
    } else {
        "unknown socks server error type "@ + dec_seq(code as nat)
    }
}

/// The message for a reply status code, as a string.
pub fn status_message_string(code: u8) -> (r: String)
    ensures
        r@ == status_message(code),
{
    if code == 1 {
        String::from_str("general socks server failure")
    } else if code == 2 {
        String::from_str("connection not allowed by ruleset")
    } else if code == 3 {
        String::from_str("network unreachable")
    } else if code == 4 {
        String::from_str("host unreachable")
    } else if code == 5 {
        String::from_str("connection refused")
    } else if code == 6 {
        String::from_str("ttl expired")
    } else if code == 7 {
        String::from_str("command not supported")
    } else if code == 8 {
        String::from_str("address type not supported")
    } else {
        let mut s = String::from_str("unknown socks server error type ");
        let d = dec_string(code as u16);
        s.append(d.as_str());
        s
    }
}

/// The 3-byte SOCKS5 method-negotiation request: version 5, one method
/// offered, "no authentication".
pub fn negotiation_request() -> (r: Vec<u8>)
    ensures
        r@ == seq![5u8, 1u8, 0u8],
{
    let mut v: Vec<u8> = Vec::new();
    v.push(5);
    v.push(1);
    v.push(0);
    proof {
        assert(v@ =~= seq![5u8, 1u8, 0u8]);
    }
    v
}

/// The 10-byte SOCKS5 CONNECT request for an IPv4 target: version 5, the
/// CONNECT command, a reserved zero, the IPv4 address type, the four address
/// octets, and the port in big-endian order.
pub fn connect_request(ip: [u8; 4], port: u16) -> (r: Vec<u8>)
    ensures
        r@ == seq![5u8, 1u8, 0u8, 1u8] + ip@ + seq![(port / 256) as u8, (port % 256) as u8],
{
    let mut v: Vec<u8> = Vec::new();
    v.push(5);
    v.push(1);
    v.push(0);
    v.push(1);
    v.push(ip[0]);
    v.push(ip[1]);
    v.push(ip[2]);
    v.push(ip[3]);
    v.push((port / 256) as u8);
    v.push((port % 256) as u8);
    proof {
        assert(v@ =~= seq![5u8, 1u8, 0u8, 1u8] + ip@ + seq![(port / 256) as u8, (port % 256) as u8]);
    }
    v
}

/// Where the reply parser stands: each state says what the next read is for.
pub enum ReplyState {
    /// Awaiting the version and status bytes.
    Status,
    /// Awaiting the reserved byte and the address-type byte.
    AddrTag,
    /// Awaiting the four octets of an IPv4 bound address.
    AddrV4,
    /// Awaiting the length byte of a domain-name bound address.
    DomainLen,
    /// Awaiting that many bytes of the domain name itself.
    DomainBody(u8),
    /// Awaiting the sixteen octets of an IPv6 bound address.
    AddrV6,
    /// Awaiting the two big-endian bytes of the bound port.
    Port(Addr),
    /// The reply is fully parsed.
    Done(Addr, u16),
}

/// How many bytes the machine must be fed next in state `s`.
pub open spec fn spec_needed(s: ReplyState) -> nat {
    match s {
        ReplyState::Status => 2,
        ReplyState::AddrTag => 2,
        ReplyState::AddrV4 => 4,
        ReplyState::DomainLen => 1,
        ReplyState::DomainBody(n) => n as nat,
        ReplyState::AddrV6 => 16,
        ReplyState::Port(_) => 2,
        ReplyState::Done(_, _) => 0,
    }
}

/// The successful transition relation of the reply parser: from `pre`, fed
/// exactly the bytes `chunk`, the machine may move to `post`.
pub open spec fn step_ok(pre: ReplyState, chunk: Seq<u8>, post: ReplyState) -> bool {
    match pre {
        ReplyState::Status => chunk[1] == 0 && post is AddrTag,
        ReplyState::AddrTag => (chunk[1] == 1 && post is AddrV4) || (chunk[1] == 3
            && post is DomainLen) || (chunk[1] == 4 && post is AddrV6),
        ReplyState::AddrV4 => post matches ReplyState::Port(Addr::IPv4(o)) && o@ == chunk,
        ReplyState::DomainLen => post == ReplyState::DomainBody(chunk[0]),
        ReplyState::DomainBody(_) => post matches ReplyState::Port(Addr::DomainName(d)) && d@
            == lossy_of(chunk),
        ReplyState::AddrV6 => post matches ReplyState::Port(Addr::IPv6(o)) && o@ == chunk,
        ReplyState::Port(a) => post matches ReplyState::Done(a2, p) && a2 == a && p as int == chunk[0]
            * 256 + chunk[1],
        ReplyState::Done(_, _) => false,
    }
}

/// The failing transition relation of the reply parser: from `pre`, fed
/// exactly the bytes `chunk`, the machine fails with the message `msg`.
pub open spec fn step_err(pre: ReplyState, chunk: Seq<u8>, msg: Seq<char>) -> bool {
    match pre {
        ReplyState::Status => chunk[1] != 0 && msg == status_message(chunk[1]),
        ReplyState::AddrTag => chunk[1] != 1 && chunk[1] != 3 && chunk[1] != 4 && msg
            == "unsupported address type"@,
        _ => false,
    }
}

/// What the bytes of a UTF-8-damaged domain name decode to.
pub uninterp spec fn lossy_of(bytes: Seq<u8>) -> Seq<char>;

/// Relies on `String::from_utf8_lossy`: the result depends on the bytes
/// alone, and valid UTF-8 decodes unchanged.
#[verifier::external_body]
fn lossy_utf8(bytes: &[u8]) -> (r: String)
    ensures
        r@ == lossy_of(bytes@),
        vstd::utf8::valid_utf8(bytes@) ==> r@ == vstd::utf8::decode_utf8(bytes@),
{
    String::from_utf8_lossy(bytes).into_owned()
}

impl ReplyState {
    /// How many bytes to read from the stream before the next `step`.
    pub fn needed(&self) -> (r: usize)
        ensures
            r as nat == spec_needed(*self),
    {
        match self {
            ReplyState::Status => 2,
            ReplyState::AddrTag => 2,
            ReplyState::AddrV4 => 4,
            ReplyState::DomainLen => 1,
            ReplyState::DomainBody(n) => *n as usize,
            ReplyState::AddrV6 => 16,
            ReplyState::Port(_) => 2,
            ReplyState::Done(_, _) => 0,
        }
    }

    /// Whether the reply is fully parsed.
    pub fn is_done(&self) -> (r: bool)
        ensures
            r <==> *self is Done,
    {
        match self {
            ReplyState::Done(_, _) => true,
            _ => false,
        }
    }

    /// Feeds the machine the bytes it asked for and moves it one state on.
    ///
    /// The version byte of the reply header is not validated, and any
    /// two-byte negotiation answer was already accepted before this machine
    /// runs: only the status byte and the address type decide anything.
    pub fn step(self, chunk: &[u8]) -> (r: Result<ReplyState, Error>)
        requires
            !(self is Done),
            chunk@.len() == spec_needed(self),
        ensures
            match r {
                Ok(s) => step_ok(self, chunk@, s),
                Err(e) => e is Server && step_err(self, chunk@, e.spec_message()),
            },
    {
        match self {
            ReplyState::Status => {
                let b = chunk[1];
                if b == 0 {
                    Ok(ReplyState::AddrTag)
                } else {
                    Err(Error::Server(status_message_string(b)))
                }
            },
            ReplyState::AddrTag => {
                let t = chunk[1];
                if t == 1 {
                    Ok(ReplyState::AddrV4)
                } else if t == 3 {
                    Ok(ReplyState::DomainLen)
                } else if t == 4 {
                    Ok(ReplyState::AddrV6)
                } else {
                    Err(Error::Server(String::from_str("unsupported address type")))
                }
            },
            ReplyState::AddrV4 => {
                let o = [chunk[0], chunk[1], chunk[2], chunk[3]];
                proof {
                    assert(o@ =~= chunk@);
                }
                Ok(ReplyState::Port(Addr::IPv4(o)))
            },
            ReplyState::DomainLen => Ok(ReplyState::DomainBody(chunk[0])),
            ReplyState::DomainBody(_) => Ok(ReplyState::Port(Addr::DomainName(lossy_utf8(chunk)))),
            ReplyState::AddrV6 => {
                let o = [
                    chunk[0],
                    chunk[1],
                    chunk[2],
                    chunk[3],
                    chunk[4],
                    chunk[5],
                    chunk[6],
                    chunk[7],
                    chunk[8],
                    chunk[9],
                    chunk[10],
                    chunk[11],
                    chunk[12],
                    chunk[13],
                    chunk[14],
                    chunk[15],
                ];
                proof {
                    assert(o@ =~= chunk@);
                }
                Ok(ReplyState::Port(Addr::IPv6(o)))
            },
            ReplyState::Port(a) => {
                let p = (chunk[0] as u16) * 256 + (chunk[1] as u16);
                Ok(ReplyState::Done(a, p))
            },
            ReplyState::Done(a, p) => {
                proof {
                    assert(false);
                }
                Ok(ReplyState::Done(a, p))
            },
        }
    }
}

/// SOCKS5 status mapping, failure side: a non-zero status byte fails with the
/// fixed message for that code — `0x05` reads "connection refused", and a
/// code outside the defined range names its number.
pub proof fn lemma_status_mapping(ver: u8, b: u8, msg: Seq<char>)
    requires
        b != 0,
        step_err(ReplyState::Status, seq![ver, b], msg),
    ensures
        msg == status_message(b),
        b == 5 ==> msg == "connection refused"@,
        b > 8 ==> msg == "unknown socks server error type "@ + dec_seq(b as nat),
{
    assert(seq![ver, b][1] == b);
}

/// SOCKS5 status mapping, success side: a zero status byte moves the parser
/// on to the bound address, whatever the version byte says.
pub proof fn lemma_status_success(ver: u8, post: ReplyState)
    requires
        step_ok(ReplyState::Status, seq![ver, 0u8], post),
    ensures
        post is AddrTag,
{
    assert(seq![ver, 0u8][1] == 0);
}

/// SOCKS5 domain draining: after a domain-name address tag, a length byte of
/// `n` makes the parser demand exactly `n` further bytes, and any `n` bytes —
/// whatever they hold — lead straight to the two-byte port read.
pub proof fn lemma_domain_drain(n: u8, body: Seq<u8>, after_len: ReplyState, after_body: ReplyState)
    requires
        step_ok(ReplyState::DomainLen, seq![n], after_len),
        body.len() == spec_needed(after_len),
        step_ok(after_len, body, after_body),
    ensures
        after_len == ReplyState::DomainBody(n),
        spec_needed(after_len) == n as nat,
        after_body is Port,
        spec_needed(after_body) == 2,
{
    assert(seq![n][0] == n);
}


/// A resolved socket address, as far as this client reads it: an IPv4
/// address with its port, or some other family it cannot use.
pub enum ResolvedAddr {
    V4([u8; 4], u16),
    Other,
}

/// The first IPv4 entry among resolved addresses, if any.
pub open spec fn spec_first_ipv4(addrs: Seq<ResolvedAddr>) -> Option<([u8; 4], u16)>
    decreases addrs.len(),
{
    if addrs.len() == 0 {
        None
    } else {
        match addrs[0] {
            ResolvedAddr::V4(ip, port) => Some((ip, port)),
            ResolvedAddr::Other => spec_first_ipv4(addrs.skip(1)),
        }
    }
}

/// Picks the address this client will ask the SOCKS5 proxy to reach: the
/// first IPv4 entry among the resolved addresses. A target that resolves to
/// none — no address at all, or only other families — is an unknown host,
/// which fails the protocol's preconditions.
pub fn select_target(addrs: &Vec<ResolvedAddr>) -> (r: Result<([u8; 4], u16), Error>)
    ensures
        match spec_first_ipv4(addrs@) {
            Some(t) => r matches Ok(got) && got == t,
            None => r matches Err(e) && e is BadRequest,
        },
{
    let mut i: usize = 0;
    proof {
        assert(addrs@.skip(0) =~= addrs@);
    }
    while i < addrs.len()
        invariant
            i <= addrs@.len(),
            spec_first_ipv4(addrs@) == spec_first_ipv4(addrs@.skip(i as int)),
            forall|j: int| 0 <= j < i ==> addrs@[j] is Other,
        decreases addrs@.len() - i,
    {
        match &addrs[i] {
            ResolvedAddr::V4(ip, port) => {
                proof {
                    assert(addrs@.skip(i as int)[0] == addrs@[i as int]);
                }
                return Ok((*ip, *port));
            },
            ResolvedAddr::Other => {
                proof {
                    assert(addrs@.skip(i as int)[0] == addrs@[i as int]);
                    assert(addrs@.skip(i as int).skip(1) =~= addrs@.skip(i + 1));
                }
                i += 1;
            },
        }
    }
    proof {
        assert(addrs@.skip(i as int).len() == 0);
    }
    Err(Error::BadRequest(String::from_str("unknown host")))
}

} // verus!
