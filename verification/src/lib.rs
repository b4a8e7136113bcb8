//! Core logic of a forward HTTP proxy that can tunnel upstream connections
//! through a SOCKS5 proxy: derivation of the upstream target from a request's
//! URL, keep-alive header rewriting for forwarding, the SOCKS5 client wire
//! protocol, and the proxy's error taxonomy.

pub mod error;
pub mod http;
pub mod num;
pub mod socks5;
pub mod target;
