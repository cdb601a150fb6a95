//! What the proxy's answers mean.
//!
//! Each answer arrives as a fixed number of bytes; the functions here judge
//! those bytes and touch no transport.

use crate::error::{HandshakeError, ProtocolError, ServerError};
use vstd::prelude::*;

verus! {

/// The protocol version that every SOCKS5 message starts with.
pub const SOCKS_VERSION: u8 = 5;

/// The version of the username/password sub-negotiation.
pub const AUTH_VERSION: u8 = 1;

/// Method number of "no authentication required".
pub const METHOD_NO_AUTH: u8 = 0;

/// Method number of "username/password".
pub const METHOD_PASSWORD: u8 = 2;

/// Address type of an IPv4 address.
pub const ATYP_IPV4: u8 = 1;

/// Address type of a domain name.
pub const ATYP_DOMAIN: u8 = 3;

/// Length of an IPv4 address followed by a port.
pub const IPV4_TAIL_LEN: usize = 6;

/// What the proxy chose among the methods offered in the greeting.
#[derive(Clone, Copy, Debug, PartialEq, Eq, Structural)]
pub enum MethodSelection {
    /// No authentication: the CONNECT request can follow at once.
    NoAuth,
    /// The proxy wants a username and a password first.
    UsernamePassword,
    /// Anything else, a wrong version included.
    Unacceptable,
}

impl MethodSelection {
    pub open spec fn spec_from_response(version: u8, method: u8) -> MethodSelection {
        if version == SOCKS_VERSION && method == METHOD_NO_AUTH {
            MethodSelection::NoAuth
        } else if version == SOCKS_VERSION && method == METHOD_PASSWORD {
            MethodSelection::UsernamePassword
        } else {
            MethodSelection::Unacceptable
        }
    }

    /// Reads the two bytes that answer the greeting.
    pub fn from_response(response: [u8; 2]) -> (selection: MethodSelection)
        ensures
            selection == Self::spec_from_response(response[0], response[1]),
    {
        if response[0] == SOCKS_VERSION && response[1] == METHOD_NO_AUTH {
            MethodSelection::NoAuth
        } else if response[0] == SOCKS_VERSION && response[1] == METHOD_PASSWORD {
            MethodSelection::UsernamePassword
        } else {
            MethodSelection::Unacceptable
        }
    }
}

/// How the handshake goes on after the answer `(version, method)` to the
/// greeting: with `NoAuth` or `UsernamePassword`, or not at all.
pub open spec fn spec_answer_hello(version: u8, method: u8, has_credentials: bool) -> Result<
    MethodSelection,
    ProtocolError,
> {
    match MethodSelection::spec_from_response(version, method) {
        MethodSelection::NoAuth => Ok(MethodSelection::NoAuth),
        MethodSelection::UsernamePassword => if has_credentials {
            Ok(MethodSelection::UsernamePassword)
        } else {
            Err(ProtocolError::AuthRequired)
        },
        MethodSelection::Unacceptable => Err(ProtocolError::UnexpectedGreetingResponse),
    }
}

/// Decides what follows the proxy's answer to the greeting.
///
/// `(5, 0)` lets the CONNECT request follow at once, whether or not
/// credentials are at hand. `(5, 2)` calls for the username/password
/// exchange, which needs credentials. Every other answer ends the attempt.
pub fn answer_hello(response: [u8; 2], has_credentials: bool) -> (next: Result<
    MethodSelection,
    ProtocolError,
>)
    ensures
        next == spec_answer_hello(response[0], response[1], has_credentials),
        next matches Ok(selection) ==> selection != MethodSelection::Unacceptable,
{
    match MethodSelection::from_response(response) {
        MethodSelection::NoAuth => Ok(MethodSelection::NoAuth),
        MethodSelection::UsernamePassword => {
            if has_credentials {
                Ok(MethodSelection::UsernamePassword)
            } else {
                Err(ProtocolError::AuthRequired)
            }
        },
        MethodSelection::Unacceptable => Err(ProtocolError::UnexpectedGreetingResponse),
    }
}

/// The proxy's verdict `(version, status)` on a username and password:
/// accepted exactly when it reads `(1, 0)`.
pub open spec fn spec_auth_verdict(version: u8, status: u8) -> Result<(), ProtocolError> {
    if version == AUTH_VERSION && status == 0 {
        Ok(())
    } else {
        Err(ProtocolError::Unauthorized)
    }
}

/// Reads the two bytes that answer the username/password message.
pub fn auth_verdict(response: [u8; 2]) -> (verdict: Result<(), ProtocolError>)
    ensures
        verdict == spec_auth_verdict(response[0], response[1]),
{
    if response[0] == AUTH_VERSION && response[1] == 0 {
        Ok(())
    } else {
        Err(ProtocolError::Unauthorized)
    }
}

/// The head of the proxy's reply to a CONNECT request. The bound address
/// that follows it on the wire is read and dropped, and has no place here.
#[derive(Clone, Copy, Debug, PartialEq, Eq, Structural)]
pub struct ServerReply {
    pub version: u8,
    pub status: u8,
    pub reserved: u8,
}

impl ServerReply {
    /// Whether the reply opens the tunnel, and if not, why not. The version
    /// is looked at first, then the status, then the reserved byte.
    pub open spec fn spec_verdict(self) -> Result<(), HandshakeError> {
        if self.version != SOCKS_VERSION {
            Err(HandshakeError::Protocol(ProtocolError::BadVersion))
        } else {
            match ServerError::spec_from_status(self.status) {
                Some(error) => Err(HandshakeError::Server(error)),
                None => if self.reserved != 0 {
                    Err(HandshakeError::Protocol(ProtocolError::MalformedReply))
                } else {
                    Ok(())
                },
            }
        }
    }

    /// Takes the three header bytes apart.
    pub fn from_header(header: [u8; 3]) -> (reply: ServerReply)
        ensures
            reply.version == header[0],
            reply.status == header[1],
            reply.reserved == header[2],
    {
        ServerReply { version: header[0], status: header[1], reserved: header[2] }
    }

    /// Judges the reply. A status other than 0 is reported as the proxy's
    /// error even when the reserved byte is wrong as well.
    pub fn verdict(&self) -> (verdict: Result<(), HandshakeError>)
        ensures
            verdict == self.spec_verdict(),
    {
        if self.version != SOCKS_VERSION {
            return Err(HandshakeError::Protocol(ProtocolError::BadVersion));
        }
        match ServerError::from_status(self.status) {
            Some(error) => return Err(HandshakeError::Server(error)),
            None => {},
        }
        if self.reserved != 0 {
            return Err(HandshakeError::Protocol(ProtocolError::MalformedReply));
        }
        Ok(())
    }
}

/// Judges the three header bytes of the reply to a CONNECT request.
pub fn read_response(header: [u8; 3]) -> (verdict: Result<(), HandshakeError>)
    ensures
        verdict == (ServerReply {
            version: header[0],
            status: header[1],
            reserved: header[2],
        }).spec_verdict(),
{
    ServerReply::from_header(header).verdict()
}

/// How many bytes of bound address and port follow an address-type byte.
/// Only IPv4 is understood.
pub open spec fn spec_bound_address_len(address_type: u8) -> Result<usize, ProtocolError> {
    if address_type == ATYP_IPV4 {
        Ok(IPV4_TAIL_LEN)
    } else {
        Err(ProtocolError::UnsupportedAddressType)
    }
}

/// Reads the address-type byte of a reply's bound address.
pub fn bound_address_len(address_type: u8) -> (len: Result<usize, ProtocolError>)
    ensures
        len == spec_bound_address_len(address_type),
{
    if address_type == ATYP_IPV4 {
        Ok(IPV4_TAIL_LEN)
    } else {
        Err(ProtocolError::UnsupportedAddressType)
    }
}

} // verus!
