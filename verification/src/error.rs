//! The ways in which a handshake attempt can end without a tunnel.

use vstd::prelude::*;
use vstd::string::StringExecFns;

verus! {

/// The caller handed in something that cannot be put on the wire.
#[derive(Clone, Copy, Debug, PartialEq, Eq, Structural)]
pub enum ConfigError {
    /// The username or the password is longer than 255 bytes.
    CredentialsTooLong,
    /// The target names no host.
    HostMissing,
    /// The target's host is longer than 255 bytes.
    HostTooLong,
    /// The target gives no port and its scheme has no default one.
    UnsupportedScheme,
}

/// The proxy answered with something the protocol does not allow here.
#[derive(Clone, Copy, Debug, PartialEq, Eq, Structural)]
pub enum ProtocolError {
    /// The reply does not carry protocol version 5.
    BadVersion,
    /// The proxy turned the username and password down.
    Unauthorized,
    /// The reserved byte of the reply is not zero.
    MalformedReply,
    /// The bound address of the reply is not an IPv4 address.
    UnsupportedAddressType,
    /// The proxy asks for a username and password and none was configured.
    AuthRequired,
    /// The answer to the greeting names no method that was offered.
    UnexpectedGreetingResponse,
}

/// The proxy reported that it could not open the tunnel.
#[derive(Clone, Copy, Debug, PartialEq, Eq, Structural)]
pub enum ServerError {
    GeneralFailure,
    NotAllowedByRuleset,
    NetworkUnreachable,
    HostUnreachable,
    ConnectionRefused,
    TtlExpired,
    CommandNotSupported,
    AddressTypeNotSupported,
    /// A status byte outside `0..=8`.
    Unknown,
}

/// Why a handshake attempt ended in failure.
#[derive(Clone, Copy, Debug, PartialEq, Eq, Structural)]
pub enum HandshakeError {
    Config(ConfigError),
    Protocol(ProtocolError),
    Server(ServerError),
    /// The transport failed, or did not do what it was asked to do.
    Transport,
    /// The TLS upgrade of the finished tunnel failed.
    Tls,
}

/// How a failure reads to a caller that knows only input, data and the
/// rest apart.
#[derive(Clone, Copy, Debug, PartialEq, Eq, Structural)]
pub enum ErrorClass {
    /// The caller's target cannot be asked for.
    InvalidInput,
    /// The proxy's bytes are not those of the protocol.
    InvalidData,
    /// Everything else.
    Other,
}

impl ConfigError {
    pub open spec fn spec_message(self) -> Seq<char> {
        match self {
            ConfigError::CredentialsTooLong => "invalid credentials"@,
            ConfigError::HostMissing => "Missing host"@,
            ConfigError::HostTooLong => "Host too long"@,
            ConfigError::UnsupportedScheme => "Supports only http/https"@,
        }
    }

    /// A short text for logs and for errors of other layers.
    pub fn message(&self) -> (text: String)
        ensures
            text@ == self.spec_message(),
    {
        match self {
            ConfigError::CredentialsTooLong => String::from_str("invalid credentials"),
            ConfigError::HostMissing => String::from_str("Missing host"),
            ConfigError::HostTooLong => String::from_str("Host too long"),
            ConfigError::UnsupportedScheme => String::from_str("Supports only http/https"),
        }
    }
}

impl ProtocolError {
    pub open spec fn spec_message(self) -> Seq<char> {
        match self {
            ProtocolError::BadVersion => "invalid version"@,
            ProtocolError::Unauthorized => "unauthorized"@,
            ProtocolError::MalformedReply => "invalid reserved byte"@,
            ProtocolError::UnsupportedAddressType => "unsupported address type"@,
            ProtocolError::AuthRequired => "authentication required"@,
            ProtocolError::UnexpectedGreetingResponse => "wrong response from socks server"@,
        }
    }

    /// A short text for logs and for errors of other layers.
    pub fn message(&self) -> (text: String)
        ensures
            text@ == self.spec_message(),
    {
        match self {
            ProtocolError::BadVersion => String::from_str("invalid version"),
            ProtocolError::Unauthorized => String::from_str("unauthorized"),
            ProtocolError::MalformedReply => String::from_str("invalid reserved byte"),
            ProtocolError::UnsupportedAddressType => String::from_str("unsupported address type"),
            ProtocolError::AuthRequired => String::from_str("authentication required"),
            ProtocolError::UnexpectedGreetingResponse => String::from_str(
                "wrong response from socks server",
            ),
        }
    }
}

impl ServerError {
    /// The error that a status byte of a CONNECT reply stands for; `None`
    /// for status 0, which reports success.
    pub open spec fn spec_from_status(status: u8) -> Option<ServerError> {
        if status == 0 {
            None
        } else if status == 1 {
            Some(ServerError::GeneralFailure)
        } else if status == 2 {
            Some(ServerError::NotAllowedByRuleset)
        } else if status == 3 {
            Some(ServerError::NetworkUnreachable)
        } else if status == 4 {
            Some(ServerError::HostUnreachable)
        } else if status == 5 {
            Some(ServerError::ConnectionRefused)
        } else if status == 6 {
            Some(ServerError::TtlExpired)
        } else if status == 7 {
            Some(ServerError::CommandNotSupported)
        } else if status == 8 {
            Some(ServerError::AddressTypeNotSupported)
        } else {
            Some(ServerError::Unknown)
        }
    }

    /// Reads the status byte of a CONNECT reply.
    pub fn from_status(status: u8) -> (error: Option<ServerError>)
        ensures
            error == Self::spec_from_status(status),
    {
        match status {
            0 => None,
            1 => Some(ServerError::GeneralFailure),
            2 => Some(ServerError::NotAllowedByRuleset),
            3 => Some(ServerError::NetworkUnreachable),
            4 => Some(ServerError::HostUnreachable),
            5 => Some(ServerError::ConnectionRefused),
            6 => Some(ServerError::TtlExpired),
            7 => Some(ServerError::CommandNotSupported),
            8 => Some(ServerError::AddressTypeNotSupported),
            _ => Some(ServerError::Unknown),
        }
    }

    pub open spec fn spec_message(self) -> Seq<char> {
        match self {
            ServerError::GeneralFailure => "general SOCKS server failure"@,
            ServerError::NotAllowedByRuleset => "connection not allowed by ruleset"@,
            ServerError::NetworkUnreachable => "network unreachable"@,
            ServerError::HostUnreachable => "host unreachable"@,
            ServerError::ConnectionRefused => "connection refused"@,
            ServerError::TtlExpired => "TTL expired"@,
            ServerError::CommandNotSupported => "command not supported"@,
            ServerError::AddressTypeNotSupported => "address kind not supported"@,
            ServerError::Unknown => "unknown error"@,
        }
    }

    /// A short text for logs and for errors of other layers.
    pub fn message(&self) -> (text: String)
        ensures
            text@ == self.spec_message(),
    {
        match self {
            ServerError::GeneralFailure => String::from_str("general SOCKS server failure"),
            ServerError::NotAllowedByRuleset => String::from_str(
                "connection not allowed by ruleset",
            ),
            ServerError::NetworkUnreachable => String::from_str("network unreachable"),
            ServerError::HostUnreachable => String::from_str("host unreachable"),
            ServerError::ConnectionRefused => String::from_str("connection refused"),
            ServerError::TtlExpired => String::from_str("TTL expired"),
            ServerError::CommandNotSupported => String::from_str("command not supported"),
            ServerError::AddressTypeNotSupported => String::from_str("address kind not supported"),
            ServerError::Unknown => String::from_str("unknown error"),
        }
    }
}

impl HandshakeError {
    /// A target that cannot be asked for is invalid input. An answer that
    /// breaks the protocol is invalid data, but for a wrong version in the
    /// reply. All else is of the last class: credentials that are too
    /// long, what the proxy reports, and what the transport and TLS do.
    pub open spec fn spec_class(self) -> ErrorClass {
        match self {
            HandshakeError::Config(ConfigError::CredentialsTooLong) => ErrorClass::Other,
            HandshakeError::Config(_) => ErrorClass::InvalidInput,
            HandshakeError::Protocol(ProtocolError::BadVersion) => ErrorClass::Other,
            HandshakeError::Protocol(_) => ErrorClass::InvalidData,
            HandshakeError::Server(_) => ErrorClass::Other,
            HandshakeError::Transport => ErrorClass::Other,
            HandshakeError::Tls => ErrorClass::Other,
        }
    }

    /// The class of the failure.
    pub fn class(&self) -> (class: ErrorClass)
        ensures
            class == self.spec_class(),
    {
        match self {
            HandshakeError::Config(ConfigError::CredentialsTooLong) => ErrorClass::Other,
            HandshakeError::Config(_) => ErrorClass::InvalidInput,
            HandshakeError::Protocol(ProtocolError::BadVersion) => ErrorClass::Other,
            HandshakeError::Protocol(_) => ErrorClass::InvalidData,
            HandshakeError::Server(_) => ErrorClass::Other,
            HandshakeError::Transport => ErrorClass::Other,
            HandshakeError::Tls => ErrorClass::Other,
        }
    }

    pub open spec fn spec_message(self) -> Seq<char> {
        match self {
            HandshakeError::Config(e) => e.spec_message(),
            HandshakeError::Protocol(e) => e.spec_message(),
            HandshakeError::Server(e) => e.spec_message(),
            HandshakeError::Transport => "transport failure"@,
            HandshakeError::Tls => "TLS upgrade failed"@,
        }
    }

    /// A short text for logs and for errors of other layers.
    pub fn message(&self) -> (text: String)
        ensures
            text@ == self.spec_message(),
    {
        match self {
            HandshakeError::Config(e) => e.message(),
            HandshakeError::Protocol(e) => e.message(),
            HandshakeError::Server(e) => e.message(),
            HandshakeError::Transport => String::from_str("transport failure"),
            HandshakeError::Tls => String::from_str("TLS upgrade failed"),
        }
    }
}

} // verus!
