//! What the client puts on the wire.
//!
//! Each message has a spec function that gives its bytes and a function
//! that builds exactly those bytes.

use crate::credentials::{Credentials, CredentialsView};
use crate::error::ConfigError;
use crate::reply::{ATYP_DOMAIN, AUTH_VERSION, METHOD_NO_AUTH, METHOD_PASSWORD, SOCKS_VERSION};
use crate::target::{Scheme, TargetRequest};
use byteorder::{BigEndian, WriteBytesExt};
use vstd::prelude::*;
use vstd::utf8::encode_utf8;

verus! {

/// The command number of CONNECT.
pub const CMD_CONNECT: u8 = 1;

/// The longest host, in bytes, that the one-byte length field can announce.
pub const MAX_HOST_LEN: usize = 255;

/// The two bytes of `value`, the high one first.
pub open spec fn spec_u16_be(value: u16) -> Seq<u8> {
    seq![(value / 256) as u8, (value % 256) as u8]
}

/// Appends `value` to `buffer` with byteorder's `WriteBytesExt::write_u8`.
///
/// Trusted: the buffer afterwards is the buffer before with `value` at its
/// end. byteorder hands the byte to `write_all`, which on a `Vec<u8>`
/// appends and cannot fail.
#[verifier::external_body]
fn write_u8(buffer: &mut Vec<u8>, value: u8)
    ensures
        final(buffer)@ == old(buffer)@.push(value),
{
    buffer.write_u8(value).unwrap();
}

/// Appends `value` to `buffer` with byteorder's
/// `WriteBytesExt::write_u16::<BigEndian>`.
///
/// Trusted: the buffer afterwards is the buffer before with the two bytes
/// of `value` at its end, the high byte first. byteorder lays the number
/// out with `to_be_bytes` and hands the two bytes to `write_all`, which on
/// a `Vec<u8>` appends and cannot fail.
#[verifier::external_body]
fn write_u16_be(buffer: &mut Vec<u8>, value: u16)
    ensures
        final(buffer)@ == old(buffer)@ + spec_u16_be(value),
{
    buffer.write_u16::<BigEndian>(value).unwrap();
}

/// Appends `bytes` to `buffer`.
fn write_bytes(buffer: &mut Vec<u8>, bytes: &[u8])
    ensures
        final(buffer)@ == old(buffer)@ + bytes@,
{
    buffer.extend_from_slice(bytes);
    assert(buffer@ =~= old(buffer)@ + bytes@);
}

/// The greeting: version 5, then the methods on offer. Without credentials
/// only "no authentication" is offered, with them "username/password" too.
pub open spec fn spec_greeting(has_credentials: bool) -> Seq<u8> {
    if has_credentials {
        seq![SOCKS_VERSION, 2u8, METHOD_NO_AUTH, METHOD_PASSWORD]
    } else {
        seq![SOCKS_VERSION, 1u8, METHOD_NO_AUTH]
    }
}

/// Builds the greeting.
pub fn greeting(has_credentials: bool) -> (message: Vec<u8>)
    ensures
        message@ == spec_greeting(has_credentials),
{
    let mut message: Vec<u8> = Vec::new();
    message.push(SOCKS_VERSION);
    if has_credentials {
        message.push(2);
        message.push(METHOD_NO_AUTH);
        message.push(METHOD_PASSWORD);
    } else {
        message.push(1);
        message.push(METHOD_NO_AUTH);
    }
    assert(message@ =~= spec_greeting(has_credentials));
    message
}

/// The username/password message: version 1, then each field behind a byte
/// that gives its length.
pub open spec fn spec_auth_request(credentials: CredentialsView) -> Seq<u8>
    recommends
        credentials.fits(),
{
    seq![AUTH_VERSION, credentials.username.len() as u8] + credentials.username
        + seq![credentials.password.len() as u8] + credentials.password
}

/// Builds the username/password message.
pub fn auth_request(credentials: &Credentials) -> (message: Vec<u8>)
    ensures
        message@ == spec_auth_request(credentials@),
        credentials@.fits(),
{
    let username = credentials.username();
    let password = credentials.password();
    let mut message: Vec<u8> = Vec::with_capacity(username.len() + password.len() + 3);
    message.push(AUTH_VERSION);
    message.push(username.len() as u8);
    write_bytes(&mut message, username.as_slice());
    message.push(password.len() as u8);
    write_bytes(&mut message, password.as_slice());
    assert(message@ =~= spec_auth_request(credentials@));
    message
}

/// A host and a port as the address of a request: the domain-name address
/// type, the host behind a byte that gives its length, the port with its
/// high byte first.
pub open spec fn spec_address(host: Seq<u8>, port: u16) -> Seq<u8>
    recommends
        host.len() <= MAX_HOST_LEN,
{
    seq![ATYP_DOMAIN, host.len() as u8] + host + spec_u16_be(port)
}

impl TargetRequest {
    /// The bytes of the host, if there is one.
    pub open spec fn spec_host_bytes(self) -> Option<Seq<u8>> {
        match self.host {
            Some(host) => Some(encode_utf8(host@)),
            None => None,
        }
    }

    /// The host and port to ask the proxy for, or the reason why the target
    /// cannot be asked for. A missing host is found first, then one that is
    /// too long, then a port that cannot be told.
    pub open spec fn spec_resolve(self) -> Result<(Seq<u8>, u16), ConfigError> {
        match self.spec_host_bytes() {
            None => Err(ConfigError::HostMissing),
            Some(host) => if host.len() > MAX_HOST_LEN {
                Err(ConfigError::HostTooLong)
            } else {
                match self.spec_resolved_port() {
                    None => Err(ConfigError::UnsupportedScheme),
                    Some(port) => Ok((host, port)),
                }
            },
        }
    }

    /// The address of the target in a request.
    pub open spec fn spec_address(self) -> Result<Seq<u8>, ConfigError> {
        match self.spec_resolve() {
            Ok((host, port)) => Ok(spec_address(host, port)),
            Err(error) => Err(error),
        }
    }

    /// The whole CONNECT request for the target.
    pub open spec fn spec_connect_request(self) -> Result<Seq<u8>, ConfigError> {
        match self.spec_resolve() {
            Ok((host, port)) => Ok(spec_connect_request(host, port)),
            Err(error) => Err(error),
        }
    }
}

/// Whether `encoded` holds what `expected` says: the same error, or the
/// same bytes.
pub open spec fn encodes(encoded: Result<Vec<u8>, ConfigError>, expected: Result<
    Seq<u8>,
    ConfigError,
>) -> bool {
    match (encoded, expected) {
        (Ok(bytes), Ok(wanted)) => bytes@ == wanted,
        (Err(error), Err(wanted)) => error == wanted,
        _ => false,
    }
}

/// Encodes the target as the address of a request. The host always goes
/// out as a domain name, also where it spells an IP address.
pub fn encode_address(target: &TargetRequest) -> (encoded: Result<Vec<u8>, ConfigError>)
    ensures
        encodes(encoded, target.spec_address()),
{
    let host: &[u8] = match &target.host {
        Some(host) => host.as_str().as_bytes(),
        None => return Err(ConfigError::HostMissing),
    };
    if host.len() > MAX_HOST_LEN {
        return Err(ConfigError::HostTooLong);
    }
    let port: u16 = match target.resolved_port() {
        Some(port) => port,
        None => return Err(ConfigError::UnsupportedScheme),
    };
    let mut packet: Vec<u8> = Vec::new();
    write_u8(&mut packet, ATYP_DOMAIN);
    write_u8(&mut packet, host.len() as u8);
    write_bytes(&mut packet, host);
    write_u16_be(&mut packet, port);
    assert(packet@ =~= spec_address(host@, port));
    Ok(packet)
}

/// The head of a CONNECT request: version 5, the command, a reserved zero.
pub open spec fn spec_connect_header() -> Seq<u8> {
    seq![SOCKS_VERSION, CMD_CONNECT, 0u8]
}

/// A CONNECT request: its head, then the address.
pub open spec fn spec_connect_request(host: Seq<u8>, port: u16) -> Seq<u8>
    recommends
        host.len() <= MAX_HOST_LEN,
{
    spec_connect_header() + spec_address(host, port)
}

/// Builds the CONNECT request for the target.
pub fn connect_request(target: &TargetRequest) -> (encoded: Result<Vec<u8>, ConfigError>)
    ensures
        encodes(encoded, target.spec_connect_request()),
{
    let address: Vec<u8> = match encode_address(target) {
        Ok(address) => address,
        Err(error) => return Err(error),
    };
    let mut request: Vec<u8> = Vec::with_capacity(address.len() + 3);
    request.push(SOCKS_VERSION);
    request.push(CMD_CONNECT);
    request.push(0);
    write_bytes(&mut request, address.as_slice());
    assert(request@ =~= spec_connect_header() + address@);
    Ok(request)
}


/// The number that two bytes spell, the high one first.
pub open spec fn spec_u16_from_be(high: u8, low: u8) -> int {
    high * 256 + low
}

/// The port that a request or an address ends with.
pub open spec fn spec_port_field(message: Seq<u8>) -> int
    recommends
        message.len() >= 2,
{
    spec_u16_from_be(message[message.len() - 2], message[message.len() - 1])
}

/// The two bytes of a number spell that number.
pub proof fn lemma_u16_be_round_trip(value: u16)
    ensures
        spec_u16_be(value).len() == 2,
        spec_u16_from_be(spec_u16_be(value)[0], spec_u16_be(value)[1]) == value,
{
}

/// Each field of an address sits where a reader looks for it: the type,
/// the host's length, the host in full, and the port behind it.
pub proof fn lemma_address_layout(host: Seq<u8>, port: u16)
    requires
        host.len() <= MAX_HOST_LEN,
    ensures
        ({
            let address = spec_address(host, port);
            let len = host.len() as int;
            &&& address.len() == len + 4
            &&& address[0] == ATYP_DOMAIN
            &&& address[1] == len
            &&& address.subrange(2, 2 + len) == host
            &&& address.subrange(2 + len, 4 + len) == spec_u16_be(port)
            &&& spec_port_field(address) == port
        }),
{
    let address = spec_address(host, port);
    let len = host.len() as int;
    assert(address.subrange(2, 2 + len) =~= host);
    assert(address.subrange(2 + len, 4 + len) =~= spec_u16_be(port));
    lemma_u16_be_round_trip(port);
}

/// A CONNECT request is its three header bytes and then the address, so
/// that it ends with the same port.
pub proof fn lemma_request_layout(host: Seq<u8>, port: u16)
    requires
        host.len() <= MAX_HOST_LEN,
    ensures
        ({
            let request = spec_connect_request(host, port);
            let len = host.len() as int;
            &&& request.len() == len + 7
            &&& request.subrange(0, 3) == seq![SOCKS_VERSION, CMD_CONNECT, 0u8]
            &&& request.subrange(3, 7 + len) == spec_address(host, port)
            &&& spec_port_field(request) == port
        }),
{
    let request = spec_connect_request(host, port);
    let len = host.len() as int;
    lemma_address_layout(host, port);
    assert(request.subrange(0, 3) =~= seq![SOCKS_VERSION, CMD_CONNECT, 0u8]);
    assert(request.subrange(3, 7 + len) =~= spec_address(host, port));
}

/// Which targets can be asked for: those with a host of at most 255 bytes
/// and a port that is spelled out or follows from the scheme.
pub proof fn lemma_encodable_targets(target: TargetRequest)
    ensures
        target.spec_connect_request() is Ok <==> target.spec_address() is Ok,
        target.spec_address() is Ok <==> (target.spec_host_bytes() matches Some(host) && host.len()
            <= MAX_HOST_LEN && (target.port is Some || target.scheme != Scheme::Other)),
{
}

/// The port that goes out is the one the target spells out; without one it
/// is 443 for `https` and 80 for `http`, and no other scheme is encoded.
pub proof fn lemma_port_resolution(target: TargetRequest)
    ensures
        target.spec_connect_request() matches Ok(request) ==> {
            &&& target.port matches Some(port) ==> spec_port_field(request) == port
            &&& target.port is None && target.scheme == Scheme::Https ==> spec_port_field(request)
                == 443
            &&& target.port is None && target.scheme == Scheme::Http ==> spec_port_field(request)
                == 80
        },
        target.spec_address() matches Ok(address) ==> {
            &&& target.port matches Some(port) ==> spec_port_field(address) == port
            &&& target.port is None && target.scheme == Scheme::Https ==> spec_port_field(address)
                == 443
            &&& target.port is None && target.scheme == Scheme::Http ==> spec_port_field(address)
                == 80
        },
        target.port is None && target.scheme == Scheme::Other ==> target.spec_address() is Err
            && target.spec_connect_request() is Err,
{
    match target.spec_resolve() {
        Ok((host, port)) => {
            lemma_address_layout(host, port);
            lemma_request_layout(host, port);
        },
        Err(_) => {},
    }
}

/// A host of more than 255 bytes is turned down as too long, whatever the
/// port and the scheme.
pub proof fn lemma_long_host_is_refused(target: TargetRequest)
    requires
        target.spec_host_bytes() matches Some(host) && host.len() > MAX_HOST_LEN,
    ensures
        target.spec_address() == Err::<Seq<u8>, ConfigError>(ConfigError::HostTooLong),
        target.spec_connect_request() == Err::<Seq<u8>, ConfigError>(ConfigError::HostTooLong),
{
}

/// A target without a host is turned down for that, whatever the rest.
pub proof fn lemma_missing_host_is_refused(target: TargetRequest)
    requires
        target.host is None,
    ensures
        target.spec_address() == Err::<Seq<u8>, ConfigError>(ConfigError::HostMissing),
        target.spec_connect_request() == Err::<Seq<u8>, ConfigError>(ConfigError::HostMissing),
{
}

/// The username/password message gives each field behind its length, so
/// that a reader finds both again.
pub proof fn lemma_auth_request_layout(credentials: CredentialsView)
    requires
        credentials.fits(),
    ensures
        ({
            let message = spec_auth_request(credentials);
            let ulen = credentials.username.len() as int;
            let plen = credentials.password.len() as int;
            &&& message.len() == 3 + ulen + plen
            &&& message[0] == AUTH_VERSION
            &&& message[1] == ulen
            &&& message.subrange(2, 2 + ulen) == credentials.username
            &&& message[2 + ulen] == plen
            &&& message.subrange(3 + ulen, 3 + ulen + plen) == credentials.password
        }),
{
    let message = spec_auth_request(credentials);
    let ulen = credentials.username.len() as int;
    let plen = credentials.password.len() as int;
    assert(message.subrange(2, 2 + ulen) =~= credentials.username);
    assert(message.subrange(3 + ulen, 3 + ulen + plen) =~= credentials.password);
}

/// The greeting announces as many methods as it lists, "no authentication"
/// always among them and "username/password" exactly with credentials.
pub proof fn lemma_greeting_layout(has_credentials: bool)
    ensures
        ({
            let message = spec_greeting(has_credentials);
            &&& message[0] == SOCKS_VERSION
            &&& message.len() == 2 + message[1]
            &&& message.subrange(2, message.len() as int).contains(METHOD_NO_AUTH)
            &&& message.subrange(2, message.len() as int).contains(METHOD_PASSWORD)
                <==> has_credentials
        }),
{
    let message = spec_greeting(has_credentials);
    let methods = message.subrange(2, message.len() as int);
    assert(methods[0] == METHOD_NO_AUTH);
    if has_credentials {
        assert(methods[1] == METHOD_PASSWORD);
    }
}

} // verus!
