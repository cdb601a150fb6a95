//! Where the tunnel goes, and where the proxy is.

use vstd::prelude::*;
use vstd::string::StringExecFns;

verus! {

/// The default port of `https`.
pub const HTTPS_PORT: u16 = 443;

/// The default port of `http`.
pub const HTTP_PORT: u16 = 80;

/// The scheme of a target, as far as the handshake cares for it.
#[derive(Clone, Copy, Debug, PartialEq, Eq, Structural)]
pub enum Scheme {
    Http,
    Https,
    /// No scheme, or one that is neither `http` nor `https`.
    Other,
}

impl Scheme {
    pub open spec fn spec_parse(name: Seq<char>) -> Scheme {
        if name == "https"@ {
            Scheme::Https
        } else if name == "http"@ {
            Scheme::Http
        } else {
            Scheme::Other
        }
    }

    /// Reads a scheme's name. Only the exact names `https` and `http` are
    /// known.
    pub fn parse(name: &str) -> (scheme: Scheme)
        ensures
            scheme == Self::spec_parse(name@),
    {
        let name = String::from_str(name);
        if name == String::from_str("https") {
            Scheme::Https
        } else if name == String::from_str("http") {
            Scheme::Http
        } else {
            Scheme::Other
        }
    }

    /// The port that a target of this scheme means when it names none.
    pub open spec fn spec_default_port(self) -> Option<u16> {
        match self {
            Scheme::Https => Some(HTTPS_PORT),
            Scheme::Http => Some(HTTP_PORT),
            Scheme::Other => None,
        }
    }

    pub fn default_port(self) -> (port: Option<u16>)
        ensures
            port == self.spec_default_port(),
    {
        match self {
            Scheme::Https => Some(HTTPS_PORT),
            Scheme::Http => Some(HTTP_PORT),
            Scheme::Other => None,
        }
    }

    /// Whether the finished tunnel is to be upgraded to TLS.
    pub open spec fn spec_is_secure(self) -> bool {
        self == Scheme::Https
    }

    pub fn is_secure(self) -> (secure: bool)
        ensures
            secure == self.spec_is_secure(),
    {
        match self {
            Scheme::Https => true,
            _ => false,
        }
    }
}

/// The destination of one tunnel, as taken from the caller's URI: nothing
/// in it has been checked yet.
#[derive(Debug, PartialEq, Eq)]
pub struct TargetRequest {
    /// The host, a name or a literal address; `None` where the URI has none.
    pub host: Option<String>,
    /// The port that the URI spells out, if it does.
    pub port: Option<u16>,
    pub scheme: Scheme,
}

impl TargetRequest {
    pub fn new(host: Option<String>, port: Option<u16>, scheme: Scheme) -> (target: TargetRequest)
        ensures
            target.host == host,
            target.port == port,
            target.scheme == scheme,
    {
        TargetRequest { host, port, scheme }
    }

    /// The port to connect to: the explicit one, else the scheme's default.
    pub open spec fn spec_resolved_port(self) -> Option<u16> {
        match self.port {
            Some(port) => Some(port),
            None => self.scheme.spec_default_port(),
        }
    }

    pub fn resolved_port(&self) -> (port: Option<u16>)
        ensures
            port == self.spec_resolved_port(),
    {
        match self.port {
            Some(port) => Some(port),
            None => self.scheme.default_port(),
        }
    }
}

impl Clone for TargetRequest {
    fn clone(&self) -> (copy: TargetRequest)
        ensures
            copy == *self,
    {
        let host: Option<String> = match &self.host {
            Some(host) => Some(host.clone()),
            None => None,
        };
        TargetRequest { host, port: self.port, scheme: self.scheme }
    }
}

/// The network address of the proxy, as plain numbers.
#[derive(Clone, Copy, Debug, PartialEq, Eq)]
pub enum ProxyEndpoint {
    /// An IPv4 address, as its four octets, and a port.
    V4 { octets: [u8; 4], port: u16 },
    /// An IPv6 address, as its eight segments, and a port with the flow
    /// information and the scope that go with it.
    V6 { segments: [u16; 8], port: u16, flowinfo: u32, scope_id: u32 },
}

impl ProxyEndpoint {
    pub open spec fn spec_port(self) -> u16 {
        match self {
            ProxyEndpoint::V4 { port, .. } => port,
            ProxyEndpoint::V6 { port, .. } => port,
        }
    }

    pub fn port(&self) -> (port: u16)
        ensures
            port == self.spec_port(),
    {
        match self {
            ProxyEndpoint::V4 { port, .. } => *port,
            ProxyEndpoint::V6 { port, .. } => *port,
        }
    }
}

} // verus!
