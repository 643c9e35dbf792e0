//! Broker addresses and the error a broker call can end in.
use vstd::prelude::*;

verus! {

/// The address of one broker: host, port, and whether TLS wraps the
/// connection.
#[derive(Debug)]
pub struct BootstrapServer {
    pub domain: String,
    pub port: i32,
    pub use_tls: bool,
}

impl BootstrapServer {
    pub fn of(domain: String, port: i32, use_tls: bool) -> (r: BootstrapServer)
        ensures
            r.domain@ == domain@,
            r.port == port,
            r.use_tls == use_tls,
    {
        BootstrapServer { domain, port, use_tls }
    }

    /// A copy of this address.
    pub fn duplicate(&self) -> (r: BootstrapServer)
        ensures
            r.domain@ == self.domain@,
            r.port == self.port,
            r.use_tls == self.use_tls,
    {
        BootstrapServer { domain: self.domain.clone(), port: self.port, use_tls: self.use_tls }
    }
}

/// A broker call that failed: the connection, the bytes, or the broker's
/// answer. The message is for people to read.
#[derive(Debug)]
pub struct ApiRequestError {
    pub error: String,
}

impl ApiRequestError {
    pub fn of(error: String) -> (r: ApiRequestError)
        ensures
            r.error@ == error@,
    {
        ApiRequestError { error }
    }

    pub fn from(error: &str) -> (r: ApiRequestError)
        ensures
            r.error@ == error@,
    {
        ApiRequestError::of(error.to_string())
    }
}

/// A failed exchange over one connection.
#[derive(Debug)]
pub struct TcpRequestError {
    pub error: String,
}

impl TcpRequestError {
    pub fn of(error: String) -> (r: TcpRequestError)
        ensures
            r.error@ == error@,
    {
        TcpRequestError { error }
    }

    pub fn from(error: &str) -> (r: TcpRequestError)
        ensures
            r.error@ == error@,
    {
        TcpRequestError::of(error.to_string())
    }
}

} // verus!
