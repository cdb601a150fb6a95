use hyper_socks_async::{ConfigError, ErrorClass, HandshakeError, ProtocolError, ServerError};

#[test]
fn config_error_messages() {
    assert_eq!(ConfigError::CredentialsTooLong.message(), "invalid credentials");
    assert_eq!(ConfigError::HostMissing.message(), "Missing host");
    assert_eq!(ConfigError::HostTooLong.message(), "Host too long");
    assert_eq!(ConfigError::UnsupportedScheme.message(), "Supports only http/https");
}

#[test]
fn protocol_error_messages() {
    assert_eq!(ProtocolError::BadVersion.message(), "invalid version");
    assert_eq!(ProtocolError::Unauthorized.message(), "unauthorized");
    assert_eq!(ProtocolError::MalformedReply.message(), "invalid reserved byte");
    assert_eq!(ProtocolError::UnsupportedAddressType.message(), "unsupported address type");
    assert_eq!(ProtocolError::AuthRequired.message(), "authentication required");
    assert_eq!(
        ProtocolError::UnexpectedGreetingResponse.message(),
        "wrong response from socks server"
    );
}

#[test]
fn server_error_messages() {
    assert_eq!(ServerError::GeneralFailure.message(), "general SOCKS server failure");
    assert_eq!(ServerError::NotAllowedByRuleset.message(), "connection not allowed by ruleset");
    assert_eq!(ServerError::NetworkUnreachable.message(), "network unreachable");
    assert_eq!(ServerError::HostUnreachable.message(), "host unreachable");
    assert_eq!(ServerError::ConnectionRefused.message(), "connection refused");
    assert_eq!(ServerError::TtlExpired.message(), "TTL expired");
    assert_eq!(ServerError::CommandNotSupported.message(), "command not supported");
    assert_eq!(ServerError::AddressTypeNotSupported.message(), "address kind not supported");
    assert_eq!(ServerError::Unknown.message(), "unknown error");
}

#[test]
fn handshake_error_messages_pass_the_inner_one_on() {
    assert_eq!(HandshakeError::Config(ConfigError::HostMissing).message(), "Missing host");
    assert_eq!(HandshakeError::Protocol(ProtocolError::BadVersion).message(), "invalid version");
    assert_eq!(HandshakeError::Server(ServerError::TtlExpired).message(), "TTL expired");
    assert_eq!(HandshakeError::Transport.message(), "transport failure");
    assert_eq!(HandshakeError::Tls.message(), "TLS upgrade failed");
}

#[test]
fn error_classes() {
    let input = [ConfigError::HostMissing, ConfigError::HostTooLong, ConfigError::UnsupportedScheme];
    for error in input {
        assert_eq!(HandshakeError::Config(error).class(), ErrorClass::InvalidInput);
    }
    assert_eq!(HandshakeError::Config(ConfigError::CredentialsTooLong).class(), ErrorClass::Other);
    let data = [
        ProtocolError::Unauthorized,
        ProtocolError::MalformedReply,
        ProtocolError::UnsupportedAddressType,
        ProtocolError::AuthRequired,
        ProtocolError::UnexpectedGreetingResponse,
    ];
    for error in data {
        assert_eq!(HandshakeError::Protocol(error).class(), ErrorClass::InvalidData);
    }
    assert_eq!(HandshakeError::Protocol(ProtocolError::BadVersion).class(), ErrorClass::Other);
    assert_eq!(HandshakeError::Server(ServerError::ConnectionRefused).class(), ErrorClass::Other);
    assert_eq!(HandshakeError::Server(ServerError::Unknown).class(), ErrorClass::Other);
    assert_eq!(HandshakeError::Transport.class(), ErrorClass::Other);
    assert_eq!(HandshakeError::Tls.class(), ErrorClass::Other);
}
