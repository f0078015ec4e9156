//! What the client accepts as its configuration.

use crate::http::HttpConfig;
use crate::tcp::TcpConfig;
use vstd::prelude::*;

verus! {

/// A full TCP configuration, an HTTP configuration, or a bare `host:port`
/// for TCP with every other setting at its default.
pub enum PyClientConfig {
    Tcp(TcpConfig),
    Http(HttpConfig),
    ServerAddress(String),
}

} // verus!
