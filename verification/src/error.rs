//! The error taxonomy of the proxy core.

use vstd::prelude::*;

verus! {

/// Classified failure of a single connection's handling.
///
/// Every variant carries a human-readable message; only the variant itself is
/// consulted for control decisions.
#[derive(Debug)]
pub enum Error {
    /// An underlying transport read/write/connect/bind failure.
    IO(String),
    /// Malformed or unrepresentable HTTP framing or encoding.
    Http(String),
    /// A malformed numeric field, such as a non-numeric port in an authority.
    Parse(String),
    /// Client-supplied data fails a protocol precondition.
    BadRequest(String),
    /// The SOCKS5 upstream proxy reported a protocol-level failure status.
    Server(String),
}

impl Error {
    /// The message carried by this error, as a sequence of characters.
    pub open spec fn spec_message(&self) -> Seq<char> {
        match self {
            Error::IO(s) => s@,
            Error::Http(s) => s@,
            Error::Parse(s) => s@,
            Error::BadRequest(s) => s@,
            Error::Server(s) => s@,
        }
    }

    /// The human-readable message carried by any variant.
    pub fn message(&self) -> (r: &str)
        ensures
            r@ == self.spec_message(),
    {
        match self {
            Error::IO(s) => s.as_str(),
            Error::Http(s) => s.as_str(),
            Error::Parse(s) => s.as_str(),
            Error::BadRequest(s) => s.as_str(),
            Error::Server(s) => s.as_str(),
        }
    }
}

} // verus!
