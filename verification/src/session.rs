//! One handshake attempt, executable.
//!
//! The session performs no I/O. It names the next thing for the transport
//! to do (an [`Action`]) and takes what came of it (an [`Event`]); the
//! driver that owns the transport carries one to the other until the
//! session is established or has failed.

use crate::credentials::{spec_credentials, Credentials};
use crate::error::{ConfigError, HandshakeError, ProtocolError};
use crate::machine::{
    lemma_step_keeps_consistency, spec_begin, ActionView, EventView, HandshakeState, SessionView,
};
use crate::reply::{
    answer_hello, auth_verdict, bound_address_len, read_response, MethodSelection, IPV4_TAIL_LEN,
};
use crate::target::TargetRequest;
use crate::wire::{auth_request, connect_request, greeting};
use vstd::prelude::*;

verus! {

/// What the driver is to do next.
#[derive(Debug, PartialEq, Eq)]
pub enum Action {
    /// Write all of these bytes, then report [`Event::Written`].
    Write(Vec<u8>),
    /// Read exactly this many bytes, then report them in
    /// [`Event::Received`].
    Read(usize),
    /// Upgrade the tunnel to TLS for this host name, then report
    /// [`Event::TlsUpgraded`] or [`Event::TlsFailed`].
    UpgradeTls(String),
    /// Hand the transport to the caller: the handshake is done.
    Finish,
    /// Give the transport up and report this error.
    Abort(HandshakeError),
}

impl View for Action {
    type V = ActionView;

    open spec fn view(&self) -> ActionView {
        match self {
            Action::Write(bytes) => ActionView::Write(bytes@),
            Action::Read(count) => ActionView::Read(*count as nat),
            Action::UpgradeTls(host) => ActionView::UpgradeTls(host@),
            Action::Finish => ActionView::Finish,
            Action::Abort(error) => ActionView::Abort(*error),
        }
    }
}

/// What came of the last [`Action`].
#[derive(Debug, PartialEq, Eq)]
pub enum Event {
    /// The bytes of a [`Action::Write`] are out.
    Written,
    /// The bytes that a [`Action::Read`] asked for.
    Received(Vec<u8>),
    /// The TLS upgrade succeeded.
    TlsUpgraded,
    /// The TLS upgrade failed.
    TlsFailed,
    /// The transport failed to write or to read.
    TransportFailed,
}

impl View for Event {
    type V = EventView;

    open spec fn view(&self) -> EventView {
        match self {
            Event::Written => EventView::Written,
            Event::Received(bytes) => EventView::Received(bytes@),
            Event::TlsUpgraded => EventView::TlsUpgraded,
            Event::TlsFailed => EventView::TlsFailed,
            Event::TransportFailed => EventView::TransportFailed,
        }
    }
}

/// One handshake attempt over one transport.
#[derive(Debug)]
pub struct HandshakeSession {
    state: HandshakeState,
    credentials: Option<Credentials>,
    host: String,
    request: Vec<u8>,
    secure: bool,
}

impl View for HandshakeSession {
    type V = SessionView;

    closed spec fn view(&self) -> SessionView {
        SessionView {
            state: self.state,
            credentials: spec_credentials(self.credentials),
            host: self.host@,
            request: self.request@,
            secure: self.secure,
        }
    }
}

impl HandshakeSession {
    #[verifier::type_invariant]
    spec fn consistent(&self) -> bool {
        self@.consistent()
    }

    /// Begins an attempt. The target is checked and the CONNECT request is
    /// encoded here, before anything is written: a target that cannot be
    /// asked for never reaches the wire.
    pub fn new(target: &TargetRequest, credentials: Option<Credentials>) -> (made: Result<
        HandshakeSession,
        ConfigError,
    >)
        ensures
            match spec_begin(*target, spec_credentials(credentials)) {
                Ok(session) => made matches Ok(begun) && begun@ == session,
                Err(error) => made matches Err(found) && found == error,
            },
    {
        let request: Vec<u8> = match connect_request(target) {
            Ok(request) => request,
            Err(error) => return Err(error),
        };
        let host: String = match &target.host {
            Some(host) => host.clone(),
            None => return Err(ConfigError::HostMissing),
        };
        Ok(
            HandshakeSession {
                state: HandshakeState::Init,
                credentials,
                host,
                request,
                secure: target.scheme.is_secure(),
            },
        )
    }

    pub fn state(&self) -> (state: HandshakeState)
        ensures
            state == self@.state,
    {
        self.state
    }

    /// What the driver is to do now. The attempt is given up only where
    /// it has failed.
    pub fn action(&self) -> (action: Action)
        ensures
            action@ == self@.pending(),
            self@.consistent(),
    {
        proof {
            use_type_invariant(self);
        }
        match self.state {
            HandshakeState::Init => Action::Write(greeting(self.credentials.is_some())),
            HandshakeState::GreetingSent => Action::Read(2),
            HandshakeState::MethodSelected => match &self.credentials {
                Some(credentials) => Action::Write(auth_request(credentials)),
                None => Action::Abort(HandshakeError::Protocol(ProtocolError::AuthRequired)),
            },
            HandshakeState::CredentialsSent => Action::Read(2),
            HandshakeState::AuthDone => {
                let request = self.request.clone();
                assert(request@ =~= self.request@);
                Action::Write(request)
            },
            HandshakeState::AddressSent => Action::Read(3),
            HandshakeState::ReplyReceived => Action::Read(1),
            HandshakeState::AddressTypeRead => Action::Read(IPV4_TAIL_LEN),
            HandshakeState::TlsUpgrading => Action::UpgradeTls(self.host.clone()),
            HandshakeState::Established => Action::Finish,
            HandshakeState::Failed(error) => Action::Abort(error),
        }
    }

    /// The state that `event` leads to.
    fn decide(&self, event: &Event) -> (state: HandshakeState)
        ensures
            state == self@.next_state(event@),
    {
        let failed = HandshakeState::Failed(HandshakeError::Transport);
        match self.state {
            HandshakeState::Established => self.state,
            HandshakeState::Failed(_) => self.state,
            HandshakeState::Init => match event {
                Event::Written => HandshakeState::GreetingSent,
                _ => failed,
            },
            HandshakeState::GreetingSent => match event {
                Event::Received(bytes) => {
                    if bytes.len() != 2 {
                        return failed;
                    }
                    match answer_hello([bytes[0], bytes[1]], self.credentials.is_some()) {
                        Ok(MethodSelection::NoAuth) => HandshakeState::AuthDone,
                        Ok(_) => HandshakeState::MethodSelected,
                        Err(error) => HandshakeState::Failed(HandshakeError::Protocol(error)),
                    }
                },
                _ => failed,
            },
            HandshakeState::MethodSelected => match (event, &self.credentials) {
                (Event::Written, Some(_)) => HandshakeState::CredentialsSent,
                _ => failed,
            },
            HandshakeState::CredentialsSent => match event {
                Event::Received(bytes) => {
                    if bytes.len() != 2 {
                        return failed;
                    }
                    match auth_verdict([bytes[0], bytes[1]]) {
                        Ok(_) => HandshakeState::AuthDone,
                        Err(error) => HandshakeState::Failed(HandshakeError::Protocol(error)),
                    }
                },
                _ => failed,
            },
            HandshakeState::AuthDone => match event {
                Event::Written => HandshakeState::AddressSent,
                _ => failed,
            },
            HandshakeState::AddressSent => match event {
                Event::Received(bytes) => {
                    if bytes.len() != 3 {
                        return failed;
                    }
                    match read_response([bytes[0], bytes[1], bytes[2]]) {
                        Ok(_) => HandshakeState::ReplyReceived,
                        Err(error) => HandshakeState::Failed(error),
                    }
                },
                _ => failed,
            },
            HandshakeState::ReplyReceived => match event {
                Event::Received(bytes) => {
                    if bytes.len() != 1 {
                        return failed;
                    }
                    match bound_address_len(bytes[0]) {
                        Ok(_) => HandshakeState::AddressTypeRead,
                        Err(error) => HandshakeState::Failed(HandshakeError::Protocol(error)),
                    }
                },
                _ => failed,
            },
            HandshakeState::AddressTypeRead => match event {
                Event::Received(bytes) => {
                    if bytes.len() != IPV4_TAIL_LEN {
                        return failed;
                    }
                    if self.secure {
                        HandshakeState::TlsUpgrading
                    } else {
                        HandshakeState::Established
                    }
                },
                _ => failed,
            },
            HandshakeState::TlsUpgrading => match event {
                Event::TlsUpgraded => HandshakeState::Established,
                Event::TlsFailed => HandshakeState::Failed(HandshakeError::Tls),
                _ => failed,
            },
        }
    }

    /// Takes what came of the last action and says what to do next.
    pub fn step(self, event: Event) -> (next: (HandshakeSession, Action))
        ensures
            next.0@ == self@.next(event@),
            next.1@ == next.0@.pending(),
            next.0@.consistent(),
    {
        proof {
            use_type_invariant(&self);
            lemma_step_keeps_consistency(self@, event@);
        }
        let state = self.decide(&event);
        let session = HandshakeSession {
            state,
            credentials: self.credentials,
            host: self.host,
            request: self.request,
            secure: self.secure,
        };
        let action = session.action();
        (session, action)
    }
}

} // verus!
