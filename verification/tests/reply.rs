use hyper_socks_async::reply::{
    answer_hello, auth_verdict, bound_address_len, read_response,
};
use hyper_socks_async::{
    HandshakeError, MethodSelection, ProtocolError, ServerError, ServerReply,
};

#[test]
fn status_zero_is_success() {
    assert_eq!(read_response([5, 0, 0]), Ok(()));
}

#[test]
fn status_five_is_connection_refused() {
    assert_eq!(
        read_response([5, 5, 0]),
        Err(HandshakeError::Server(ServerError::ConnectionRefused))
    );
}

#[test]
fn every_status_has_its_error() {
    let table = [
        (1, ServerError::GeneralFailure),
        (2, ServerError::NotAllowedByRuleset),
        (3, ServerError::NetworkUnreachable),
        (4, ServerError::HostUnreachable),
        (5, ServerError::ConnectionRefused),
        (6, ServerError::TtlExpired),
        (7, ServerError::CommandNotSupported),
        (8, ServerError::AddressTypeNotSupported),
        (9, ServerError::Unknown),
        (0x80, ServerError::Unknown),
        (0xFF, ServerError::Unknown),
    ];
    for (status, error) in table {
        assert_eq!(ServerError::from_status(status), Some(error));
        assert_eq!(read_response([5, status, 0]), Err(HandshakeError::Server(error)));
    }
    assert_eq!(ServerError::from_status(0), None);
}

#[test]
fn wrong_version_is_reported_first() {
    let bad = Err(HandshakeError::Protocol(ProtocolError::BadVersion));
    assert_eq!(read_response([4, 0, 0]), bad);
    assert_eq!(read_response([0, 5, 0]), bad);
    assert_eq!(read_response([6, 5, 1]), bad);
}

#[test]
fn status_is_reported_before_reserved_byte() {
    assert_eq!(
        read_response([5, 2, 9]),
        Err(HandshakeError::Server(ServerError::NotAllowedByRuleset))
    );
}

#[test]
fn nonzero_reserved_byte_is_malformed() {
    assert_eq!(
        read_response([5, 0, 1]),
        Err(HandshakeError::Protocol(ProtocolError::MalformedReply))
    );
}

#[test]
fn server_reply_keeps_the_header_bytes() {
    let reply = ServerReply::from_header([5, 3, 7]);
    assert_eq!(reply, ServerReply { version: 5, status: 3, reserved: 7 });
    assert_eq!(reply.verdict(), Err(HandshakeError::Server(ServerError::NetworkUnreachable)));
}

#[test]
fn method_selection_from_response() {
    assert_eq!(MethodSelection::from_response([5, 0]), MethodSelection::NoAuth);
    assert_eq!(MethodSelection::from_response([5, 2]), MethodSelection::UsernamePassword);
    assert_eq!(MethodSelection::from_response([5, 1]), MethodSelection::Unacceptable);
    assert_eq!(MethodSelection::from_response([5, 0xFF]), MethodSelection::Unacceptable);
    assert_eq!(MethodSelection::from_response([4, 0]), MethodSelection::Unacceptable);
    assert_eq!(MethodSelection::from_response([4, 2]), MethodSelection::Unacceptable);
}

#[test]
fn no_auth_answer_passes_with_and_without_credentials() {
    assert_eq!(answer_hello([5, 0], false), Ok(MethodSelection::NoAuth));
    assert_eq!(answer_hello([5, 0], true), Ok(MethodSelection::NoAuth));
}

#[test]
fn password_answer_with_credentials_asks_for_them() {
    assert_eq!(answer_hello([5, 2], true), Ok(MethodSelection::UsernamePassword));
}

#[test]
fn password_answer_without_credentials_fails() {
    assert_eq!(answer_hello([5, 2], false), Err(ProtocolError::AuthRequired));
}

#[test]
fn other_answers_to_the_greeting_fail() {
    let unexpected = Err(ProtocolError::UnexpectedGreetingResponse);
    assert_eq!(answer_hello([5, 1], true), unexpected);
    assert_eq!(answer_hello([5, 0xFF], false), unexpected);
    assert_eq!(answer_hello([4, 0], false), unexpected);
    assert_eq!(answer_hello([4, 2], true), unexpected);
    assert_eq!(answer_hello([0, 0], true), unexpected);
}

#[test]
fn auth_verdict_accepts_one_zero_only() {
    assert_eq!(auth_verdict([1, 0]), Ok(()));
    assert_eq!(auth_verdict([1, 1]), Err(ProtocolError::Unauthorized));
    assert_eq!(auth_verdict([1, 0xFF]), Err(ProtocolError::Unauthorized));
    assert_eq!(auth_verdict([5, 0]), Err(ProtocolError::Unauthorized));
    assert_eq!(auth_verdict([0, 0]), Err(ProtocolError::Unauthorized));
}

#[test]
fn only_ipv4_bound_addresses_are_read() {
    assert_eq!(bound_address_len(1), Ok(6));
    assert_eq!(bound_address_len(3), Err(ProtocolError::UnsupportedAddressType));
    assert_eq!(bound_address_len(4), Err(ProtocolError::UnsupportedAddressType));
    assert_eq!(bound_address_len(0), Err(ProtocolError::UnsupportedAddressType));
}
