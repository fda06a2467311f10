//! Connection descriptor: the resolved settings a run hands to session
//! establishment. The core treats it as an opaque bag of settings; only
//! the driver that opens the remote session interprets it.

use vstd::prelude::*;

verus! {

/// Transport-security settings of the connection pool.
#[allow(non_snake_case)]
#[derive(Clone, Debug)]
pub struct ConnectionPool {
    pub enableSsl: bool,
    pub sslEnabledProtocols: Vec<String>,
}

/// Options of the wire serializer named in the descriptor.
#[allow(non_snake_case)]
#[derive(Clone, Copy, PartialEq, Eq, Structural, Debug)]
pub struct SerializerConfig {
    pub serializeResultToString: bool,
}

/// Wire-serialization selection: a serializer class identifier plus its
/// options.
#[allow(non_snake_case)]
#[derive(Clone, Debug)]
pub struct Serializer {
    pub className: String,
    pub config: SerializerConfig,
}

/// One run's connection descriptor: endpoints, port, credentials, and the
/// transport/serialization options.
#[allow(non_snake_case)]
#[derive(Clone, Debug)]
pub struct Config {
    pub hosts: Vec<String>,
    pub port: u16,
    pub username: String,
    pub password: String,
    pub connectionPool: ConnectionPool,
    pub serializer: Serializer,
}

impl Config {
    /// A usable descriptor names at least one endpoint to connect to.
    pub open spec fn wf(self) -> bool {
        self.hosts@.len() > 0
    }

    /// Whether the descriptor names at least one endpoint.
    pub fn has_endpoint(&self) -> (r: bool)
        ensures
            r == self.wf(),
    {
        self.hosts.len() > 0
    }
}

} // verus!
