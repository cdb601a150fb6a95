use hyper_socks_async::{
    Action, ConfigError, Credentials, Event, HandshakeError, HandshakeSession, HandshakeState,
    ProtocolError, ProxyEndpoint, Scheme, ServerError, Socksv5Connector, TargetRequest,
};

fn example(scheme: Scheme) -> TargetRequest {
    TargetRequest::new(Some("example.com".to_string()), None, scheme)
}

fn example_request() -> Vec<u8> {
    let mut request = vec![5, 1, 0, 3, 11];
    request.extend_from_slice(b"example.com");
    request
}

fn credentials() -> Credentials {
    Credentials::new(b"user".to_vec(), b"pw".to_vec()).unwrap()
}

/// Steps a new session for `http://example.com` through `events`.
fn after(credentials: Option<Credentials>, events: Vec<Event>) -> (HandshakeSession, Action) {
    let mut session = HandshakeSession::new(&example(Scheme::Http), credentials).unwrap();
    let mut action = session.action();
    for event in events {
        let next = session.step(event);
        session = next.0;
        action = next.1;
    }
    (session, action)
}

fn failed(error: HandshakeError) -> (HandshakeState, Action) {
    (HandshakeState::Failed(error), Action::Abort(error))
}

#[test]
fn end_to_end_https_without_credentials() {
    let connector =
        Socksv5Connector::new(ProxyEndpoint::V4 { octets: [127, 0, 0, 1], port: 9150 });
    let session = connector.handshake(&example(Scheme::Https)).unwrap();
    assert_eq!(session.state(), HandshakeState::Init);
    assert_eq!(session.action(), Action::Write(vec![5, 1, 0]));

    let (session, action) = session.step(Event::Written);
    assert_eq!(session.state(), HandshakeState::GreetingSent);
    assert_eq!(action, Action::Read(2));

    let (session, action) = session.step(Event::Received(vec![5, 0]));
    assert_eq!(session.state(), HandshakeState::AuthDone);
    let mut request = vec![5, 1, 0, 3, 11];
    request.extend_from_slice(b"example.com");
    request.extend_from_slice(&[0x01, 0xBB]);
    assert_eq!(action, Action::Write(request));

    let (session, action) = session.step(Event::Written);
    assert_eq!(session.state(), HandshakeState::AddressSent);
    assert_eq!(action, Action::Read(3));

    let (session, action) = session.step(Event::Received(vec![5, 0, 0]));
    assert_eq!(session.state(), HandshakeState::ReplyReceived);
    assert_eq!(action, Action::Read(1));

    let (session, action) = session.step(Event::Received(vec![1]));
    assert_eq!(session.state(), HandshakeState::AddressTypeRead);
    assert_eq!(action, Action::Read(6));

    let (session, action) = session.step(Event::Received(vec![127, 0, 0, 1, 0x1F, 0x90]));
    assert_eq!(session.state(), HandshakeState::TlsUpgrading);
    assert_eq!(action, Action::UpgradeTls("example.com".to_string()));

    let (session, action) = session.step(Event::TlsUpgraded);
    assert_eq!(session.state(), HandshakeState::Established);
    assert_eq!(action, Action::Finish);
    assert!(session.state().is_terminal());
}

#[test]
fn http_target_is_established_without_tls() {
    let (session, action) = after(
        None,
        vec![
            Event::Written,
            Event::Received(vec![5, 0]),
            Event::Written,
            Event::Received(vec![5, 0, 0]),
            Event::Received(vec![1]),
            Event::Received(vec![0; 6]),
        ],
    );
    assert_eq!(session.state(), HandshakeState::Established);
    assert_eq!(action, Action::Finish);
}

#[test]
fn http_request_carries_port_80() {
    let (_, action) = after(None, vec![Event::Written, Event::Received(vec![5, 0])]);
    let mut request = example_request();
    request.extend_from_slice(&[0, 80]);
    assert_eq!(action, Action::Write(request));
}

#[test]
fn session_greeting_with_credentials_offers_password_method() {
    let (session, action) = after(Some(credentials()), Vec::new());
    assert_eq!(session.state(), HandshakeState::Init);
    assert_eq!(action, Action::Write(vec![5, 2, 0, 2]));
}

#[test]
fn no_auth_answer_bypasses_credentials() {
    let (session, action) =
        after(Some(credentials()), vec![Event::Written, Event::Received(vec![5, 0])]);
    assert_eq!(session.state(), HandshakeState::AuthDone);
    let mut request = example_request();
    request.extend_from_slice(&[0, 80]);
    assert_eq!(action, Action::Write(request));
}

#[test]
fn password_answer_sends_credentials() {
    let (session, action) =
        after(Some(credentials()), vec![Event::Written, Event::Received(vec![5, 2])]);
    assert_eq!(session.state(), HandshakeState::MethodSelected);
    assert_eq!(action, Action::Write(vec![1, 4, b'u', b's', b'e', b'r', 2, b'p', b'w']));
}

#[test]
fn session_fails_when_password_is_asked_without_credentials() {
    let (session, action) = after(None, vec![Event::Written, Event::Received(vec![5, 2])]);
    assert_eq!(
        (session.state(), action),
        failed(HandshakeError::Protocol(ProtocolError::AuthRequired))
    );
}

#[test]
fn unexpected_greeting_answer_fails() {
    for answer in [vec![5, 1], vec![5, 0xFF], vec![4, 0], vec![0, 2]] {
        let (session, action) =
            after(Some(credentials()), vec![Event::Written, Event::Received(answer)]);
        assert_eq!(
            (session.state(), action),
            failed(HandshakeError::Protocol(ProtocolError::UnexpectedGreetingResponse))
        );
    }
}

#[test]
fn accepted_credentials_lead_to_the_request() {
    let (session, action) = after(
        Some(credentials()),
        vec![Event::Written, Event::Received(vec![5, 2]), Event::Written],
    );
    assert_eq!(session.state(), HandshakeState::CredentialsSent);
    assert_eq!(action, Action::Read(2));
    let (session, action) = session.step(Event::Received(vec![1, 0]));
    assert_eq!(session.state(), HandshakeState::AuthDone);
    let mut request = example_request();
    request.extend_from_slice(&[0, 80]);
    assert_eq!(action, Action::Write(request));
}

#[test]
fn refused_credentials_fail_as_unauthorized() {
    for verdict in [vec![1, 1], vec![1, 0xFF], vec![5, 0], vec![0, 0]] {
        let (session, action) = after(
            Some(credentials()),
            vec![
                Event::Written,
                Event::Received(vec![5, 2]),
                Event::Written,
                Event::Received(verdict),
            ],
        );
        assert_eq!(
            (session.state(), action),
            failed(HandshakeError::Protocol(ProtocolError::Unauthorized))
        );
    }
}

#[test]
fn full_run_with_authentication() {
    let (session, action) = after(
        Some(credentials()),
        vec![
            Event::Written,
            Event::Received(vec![5, 2]),
            Event::Written,
            Event::Received(vec![1, 0]),
            Event::Written,
            Event::Received(vec![5, 0, 0]),
            Event::Received(vec![1]),
            Event::Received(vec![10, 0, 0, 1, 0, 80]),
        ],
    );
    assert_eq!(session.state(), HandshakeState::Established);
    assert_eq!(action, Action::Finish);
}

#[test]
fn refused_connection_fails_with_the_servers_error() {
    let (session, action) = after(
        None,
        vec![
            Event::Written,
            Event::Received(vec![5, 0]),
            Event::Written,
            Event::Received(vec![5, 5, 0]),
        ],
    );
    assert_eq!(
        (session.state(), action),
        failed(HandshakeError::Server(ServerError::ConnectionRefused))
    );
}

#[test]
fn bad_reply_version_fails() {
    let (session, action) = after(
        None,
        vec![
            Event::Written,
            Event::Received(vec![5, 0]),
            Event::Written,
            Event::Received(vec![4, 0, 0]),
        ],
    );
    assert_eq!(
        (session.state(), action),
        failed(HandshakeError::Protocol(ProtocolError::BadVersion))
    );
}

#[test]
fn nonzero_reserved_byte_fails() {
    let (session, action) = after(
        None,
        vec![
            Event::Written,
            Event::Received(vec![5, 0]),
            Event::Written,
            Event::Received(vec![5, 0, 3]),
        ],
    );
    assert_eq!(
        (session.state(), action),
        failed(HandshakeError::Protocol(ProtocolError::MalformedReply))
    );
}

#[test]
fn bound_address_other_than_ipv4_fails() {
    for address_type in [0u8, 3, 4, 0xFF] {
        let (session, action) = after(
            None,
            vec![
                Event::Written,
                Event::Received(vec![5, 0]),
                Event::Written,
                Event::Received(vec![5, 0, 0]),
                Event::Received(vec![address_type]),
            ],
        );
        assert_eq!(
            (session.state(), action),
            failed(HandshakeError::Protocol(ProtocolError::UnsupportedAddressType))
        );
    }
}

#[test]
fn tls_failure_fails_the_attempt() {
    let session = HandshakeSession::new(&example(Scheme::Https), None).unwrap();
    let mut session = session;
    for event in [
        Event::Written,
        Event::Received(vec![5, 0]),
        Event::Written,
        Event::Received(vec![5, 0, 0]),
        Event::Received(vec![1]),
        Event::Received(vec![0; 6]),
    ] {
        session = session.step(event).0;
    }
    assert_eq!(session.state(), HandshakeState::TlsUpgrading);
    let (session, action) = session.step(Event::TlsFailed);
    assert_eq!((session.state(), action), failed(HandshakeError::Tls));
}

#[test]
fn transport_failure_fails_from_every_waiting_state() {
    let script = [
        Event::Written,
        Event::Received(vec![5, 2]),
        Event::Written,
        Event::Received(vec![1, 0]),
        Event::Written,
        Event::Received(vec![5, 0, 0]),
        Event::Received(vec![1]),
        Event::Received(vec![0; 6]),
    ];
    for reached in 0..=script.len() {
        let mut session =
            HandshakeSession::new(&example(Scheme::Https), Some(credentials())).unwrap();
        for event in script.iter().take(reached) {
            let event = match event {
                Event::Written => Event::Written,
                Event::Received(bytes) => Event::Received(bytes.clone()),
                _ => unreachable!(),
            };
            session = session.step(event).0;
        }
        assert!(!session.state().is_terminal());
        let (session, action) = session.step(Event::TransportFailed);
        assert_eq!((session.state(), action), failed(HandshakeError::Transport));
    }
}

#[test]
fn event_out_of_turn_fails_as_transport_failure() {
    let (session, action) = after(None, vec![Event::Received(vec![5, 0])]);
    assert_eq!((session.state(), action), failed(HandshakeError::Transport));
    let (session, action) = after(None, vec![Event::Written, Event::Written]);
    assert_eq!((session.state(), action), failed(HandshakeError::Transport));
    let (session, action) = after(None, vec![Event::TlsUpgraded]);
    assert_eq!((session.state(), action), failed(HandshakeError::Transport));
    let (session, action) = after(None, vec![Event::TlsFailed]);
    assert_eq!((session.state(), action), failed(HandshakeError::Transport));
}

#[test]
fn answer_of_wrong_length_fails_as_transport_failure() {
    let (session, action) = after(None, vec![Event::Written, Event::Received(vec![5])]);
    assert_eq!((session.state(), action), failed(HandshakeError::Transport));
    let (session, action) = after(None, vec![Event::Written, Event::Received(vec![5, 0, 0])]);
    assert_eq!((session.state(), action), failed(HandshakeError::Transport));
    let (session, action) = after(None, vec![Event::Written, Event::Received(Vec::new())]);
    assert_eq!((session.state(), action), failed(HandshakeError::Transport));
    let (session, action) = after(
        None,
        vec![
            Event::Written,
            Event::Received(vec![5, 0]),
            Event::Written,
            Event::Received(vec![5, 0, 0]),
            Event::Received(vec![1]),
            Event::Received(vec![0; 5]),
        ],
    );
    assert_eq!((session.state(), action), failed(HandshakeError::Transport));
}

#[test]
fn established_session_ignores_further_events() {
    let (session, _) = after(
        None,
        vec![
            Event::Written,
            Event::Received(vec![5, 0]),
            Event::Written,
            Event::Received(vec![5, 0, 0]),
            Event::Received(vec![1]),
            Event::Received(vec![0; 6]),
        ],
    );
    let (session, action) = session.step(Event::TransportFailed);
    assert_eq!(session.state(), HandshakeState::Established);
    assert_eq!(action, Action::Finish);
    let (session, action) = session.step(Event::Received(vec![5, 5, 0]));
    assert_eq!(session.state(), HandshakeState::Established);
    assert_eq!(action, Action::Finish);
}

#[test]
fn failed_session_keeps_its_first_error() {
    let (session, _) = after(None, vec![Event::Written, Event::Received(vec![5, 2])]);
    let first = HandshakeError::Protocol(ProtocolError::AuthRequired);
    let (session, action) = session.step(Event::TransportFailed);
    assert_eq!((session.state(), action), failed(first));
    let (session, action) = session.step(Event::Written);
    assert_eq!((session.state(), action), failed(first));
    let (session, action) = session.step(Event::TlsUpgraded);
    assert_eq!((session.state(), action), failed(first));
}

#[test]
fn every_run_ends_within_nine_events() {
    let mut session =
        HandshakeSession::new(&example(Scheme::Https), Some(credentials())).unwrap();
    let script = vec![
        Event::Written,
        Event::Received(vec![5, 2]),
        Event::Written,
        Event::Received(vec![1, 0]),
        Event::Written,
        Event::Received(vec![5, 0, 0]),
        Event::Received(vec![1]),
        Event::Received(vec![0; 6]),
        Event::TlsUpgraded,
    ];
    assert_eq!(script.len(), 9);
    for event in script {
        assert!(!session.state().is_terminal());
        session = session.step(event).0;
    }
    assert_eq!(session.state(), HandshakeState::Established);
}

#[test]
fn session_is_not_begun_for_a_bad_target() {
    let no_host = TargetRequest::new(None, None, Scheme::Https);
    assert_eq!(HandshakeSession::new(&no_host, None).err(), Some(ConfigError::HostMissing));
    let long = TargetRequest::new(Some("x".repeat(256)), None, Scheme::Https);
    assert_eq!(HandshakeSession::new(&long, None).err(), Some(ConfigError::HostTooLong));
    let other = TargetRequest::new(Some("x".to_string()), None, Scheme::Other);
    assert_eq!(HandshakeSession::new(&other, None).err(), Some(ConfigError::UnsupportedScheme));
}

#[test]
fn explicit_port_with_other_scheme_gives_a_plain_tunnel() {
    let target = TargetRequest::new(Some("files.test".to_string()), Some(21), Scheme::Other);
    let mut session = HandshakeSession::new(&target, None).unwrap();
    for event in [
        Event::Written,
        Event::Received(vec![5, 0]),
        Event::Written,
        Event::Received(vec![5, 0, 0]),
        Event::Received(vec![1]),
        Event::Received(vec![0; 6]),
    ] {
        session = session.step(event).0;
    }
    assert_eq!(session.state(), HandshakeState::Established);
}
