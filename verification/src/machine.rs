//! The handshake as a state machine over plain values.
//!
//! This is the model that the executable session is held to: which state
//! follows which event, and what each state asks of the transport. The
//! theorems at the end are proved of the model and so hold of every
//! session.

use crate::credentials::CredentialsView;
use crate::error::{ConfigError, HandshakeError, ProtocolError};
use crate::reply::{
    spec_answer_hello, spec_auth_verdict, spec_bound_address_len, MethodSelection, ServerReply,
    IPV4_TAIL_LEN,
};
use crate::target::{Scheme, TargetRequest};
use crate::wire::{spec_auth_request, spec_greeting};
use vstd::prelude::*;

verus! {

/// How far a handshake attempt has come. Each state but the last two waits
/// for the transport to finish one thing.
#[derive(Clone, Copy, Debug, PartialEq, Eq, Structural)]
pub enum HandshakeState {
    /// Nothing is on the wire. Waits for the greeting to be written.
    Init,
    /// The greeting is out. Waits for the two bytes of the method selection.
    GreetingSent,
    /// The proxy chose username/password. Waits for the credentials to be
    /// written.
    MethodSelected,
    /// The credentials are out. Waits for the two bytes of the verdict.
    CredentialsSent,
    /// No authentication was asked for, or it succeeded. Waits for the
    /// CONNECT request to be written.
    AuthDone,
    /// The CONNECT request is out. Waits for the three header bytes of the
    /// reply.
    AddressSent,
    /// The reply reports success. Waits for the address-type byte of the
    /// bound address.
    ReplyReceived,
    /// The bound address is an IPv4 one. Waits for its six bytes.
    AddressTypeRead,
    /// The tunnel stands. Waits for the TLS upgrade to finish.
    TlsUpgrading,
    /// The transport is ready for the caller.
    Established,
    /// The attempt is over; the transport is of no further use.
    Failed(HandshakeError),
}

impl HandshakeState {
    /// The two states that nothing leads out of.
    pub open spec fn spec_is_terminal(self) -> bool {
        self is Established || self is Failed
    }

    pub fn is_terminal(&self) -> (terminal: bool)
        ensures
            terminal == self.spec_is_terminal(),
    {
        match self {
            HandshakeState::Established => true,
            HandshakeState::Failed(_) => true,
            _ => false,
        }
    }

    /// The number of steps that lie behind a state, counting those that a
    /// shorter path skips.
    pub open spec fn rank(self) -> nat {
        match self {
            HandshakeState::Init => 0,
            HandshakeState::GreetingSent => 1,
            HandshakeState::MethodSelected => 2,
            HandshakeState::CredentialsSent => 3,
            HandshakeState::AuthDone => 4,
            HandshakeState::AddressSent => 5,
            HandshakeState::ReplyReceived => 6,
            HandshakeState::AddressTypeRead => 7,
            HandshakeState::TlsUpgrading => 8,
            HandshakeState::Established => 9,
            HandshakeState::Failed(_) => 9,
        }
    }
}

/// What a state asks of the transport.
pub enum ActionView {
    Write(Seq<u8>),
    Read(nat),
    UpgradeTls(Seq<char>),
    Finish,
    Abort(HandshakeError),
}

/// What came of the last thing asked of the transport.
pub enum EventView {
    Written,
    Received(Seq<u8>),
    TlsUpgraded,
    TlsFailed,
    TransportFailed,
}

/// A handshake attempt as contracts see it: its state, and what was fixed
/// when it began.
pub struct SessionView {
    pub state: HandshakeState,
    pub credentials: Option<CredentialsView>,
    /// The target's host, for the TLS upgrade.
    pub host: Seq<char>,
    /// The CONNECT request for the target.
    pub request: Seq<u8>,
    /// Whether the tunnel is to be upgraded to TLS.
    pub secure: bool,
}

impl SessionView {
    /// What the session waits for in its state.
    pub open spec fn pending(self) -> ActionView {
        match self.state {
            HandshakeState::Init => ActionView::Write(spec_greeting(self.credentials is Some)),
            HandshakeState::GreetingSent => ActionView::Read(2),
            HandshakeState::MethodSelected => match self.credentials {
                Some(credentials) => ActionView::Write(spec_auth_request(credentials)),
                None => ActionView::Abort(HandshakeError::Protocol(ProtocolError::AuthRequired)),
            },
            HandshakeState::CredentialsSent => ActionView::Read(2),
            HandshakeState::AuthDone => ActionView::Write(self.request),
            HandshakeState::AddressSent => ActionView::Read(3),
            HandshakeState::ReplyReceived => ActionView::Read(1),
            HandshakeState::AddressTypeRead => ActionView::Read(IPV4_TAIL_LEN as nat),
            HandshakeState::TlsUpgrading => ActionView::UpgradeTls(self.host),
            HandshakeState::Established => ActionView::Finish,
            HandshakeState::Failed(error) => ActionView::Abort(error),
        }
    }

    /// Whether `event` is an outcome of what the session waits for: the end
    /// of a write for a write, as many bytes as were asked for, the end of
    /// the TLS upgrade for the upgrade.
    pub open spec fn answers(self, event: EventView) -> bool {
        match self.pending() {
            ActionView::Write(_) => event is Written,
            ActionView::Read(count) => event matches EventView::Received(bytes) && bytes.len()
                == count,
            ActionView::UpgradeTls(_) => event is TlsUpgraded || event is TlsFailed,
            ActionView::Finish => false,
            ActionView::Abort(_) => false,
        }
    }

    /// The state after `event`.
    ///
    /// An established or failed session stays as it is. Elsewhere an event
    /// that does not answer what the session waits for, a failure of the
    /// transport among them, ends the attempt as a transport failure. An
    /// event that does answer moves the session on, or ends the attempt
    /// with the error that the proxy's bytes stand for.
    pub open spec fn next_state(self, event: EventView) -> HandshakeState {
        if self.state.spec_is_terminal() {
            self.state
        } else if !self.answers(event) {
            HandshakeState::Failed(HandshakeError::Transport)
        } else {
            match self.state {
                HandshakeState::Init => HandshakeState::GreetingSent,
                HandshakeState::GreetingSent => {
                    let bytes = event->Received_0;
                    match spec_answer_hello(bytes[0], bytes[1], self.credentials is Some) {
                        Ok(MethodSelection::NoAuth) => HandshakeState::AuthDone,
                        Ok(_) => HandshakeState::MethodSelected,
                        Err(error) => HandshakeState::Failed(HandshakeError::Protocol(error)),
                    }
                },
                HandshakeState::MethodSelected => HandshakeState::CredentialsSent,
                HandshakeState::CredentialsSent => {
                    let bytes = event->Received_0;
                    match spec_auth_verdict(bytes[0], bytes[1]) {
                        Ok(_) => HandshakeState::AuthDone,
                        Err(error) => HandshakeState::Failed(HandshakeError::Protocol(error)),
                    }
                },
                HandshakeState::AuthDone => HandshakeState::AddressSent,
                HandshakeState::AddressSent => {
                    let bytes = event->Received_0;
                    let reply = ServerReply {
                        version: bytes[0],
                        status: bytes[1],
                        reserved: bytes[2],
                    };
                    match reply.spec_verdict() {
                        Ok(_) => HandshakeState::ReplyReceived,
                        Err(error) => HandshakeState::Failed(error),
                    }
                },
                HandshakeState::ReplyReceived => {
                    let bytes = event->Received_0;
                    match spec_bound_address_len(bytes[0]) {
                        Ok(_) => HandshakeState::AddressTypeRead,
                        Err(error) => HandshakeState::Failed(HandshakeError::Protocol(error)),
                    }
                },
                HandshakeState::AddressTypeRead => if self.secure {
                    HandshakeState::TlsUpgrading
                } else {
                    HandshakeState::Established
                },
                HandshakeState::TlsUpgrading => if event is TlsUpgraded {
                    HandshakeState::Established
                } else {
                    HandshakeState::Failed(HandshakeError::Tls)
                },
                HandshakeState::Established => self.state,
                HandshakeState::Failed(_) => self.state,
            }
        }
    }

    /// The session after `event`: only its state changes.
    pub open spec fn next(self, event: EventView) -> SessionView {
        SessionView { state: self.next_state(event), ..self }
    }

    /// The session after each of `events` in turn.
    pub open spec fn run(self, events: Seq<EventView>) -> SessionView
        decreases events.len(),
    {
        if events.len() == 0 {
            self
        } else {
            self.next(events[0]).run(events.drop_first())
        }
    }

    /// Credentials are at hand in the states that send them.
    pub open spec fn consistent(self) -> bool {
        (self.state == HandshakeState::MethodSelected || self.state
            == HandshakeState::CredentialsSent) ==> self.credentials is Some
    }
}

/// The session that an attempt for `target` begins with, or the reason why
/// none begins.
pub open spec fn spec_begin(target: TargetRequest, credentials: Option<CredentialsView>) -> Result<
    SessionView,
    ConfigError,
> {
    match target.spec_connect_request() {
        Ok(request) => Ok(
            SessionView {
                state: HandshakeState::Init,
                credentials,
                host: target.host->0@,
                request,
                secure: target.scheme.spec_is_secure(),
            },
        ),
        Err(error) => Err(error),
    }
}

/// An attempt begins exactly for a target that can be asked for, and else
/// is refused with the error that encoding the request gives. It begins in
/// the first state, with the CONNECT request of its target encoded in full,
/// the target's host kept for TLS, and TLS chosen exactly for `https`.
pub proof fn lemma_begin(target: TargetRequest, credentials: Option<CredentialsView>)
    ensures
        match spec_begin(target, credentials) {
            Ok(session) => {
                &&& session.state == HandshakeState::Init
                &&& session.consistent()
                &&& session.credentials == credentials
                &&& target.host is Some
                &&& session.host == target.host->0@
                &&& target.spec_connect_request() == Ok::<Seq<u8>, ConfigError>(session.request)
                &&& session.secure <==> target.scheme == Scheme::Https
            },
            Err(error) => target.spec_connect_request() == Err::<Seq<u8>, ConfigError>(error),
        },
{
}

/// A step keeps credentials at hand where they are needed.
pub proof fn lemma_step_keeps_consistency(session: SessionView, event: EventView)
    requires
        session.consistent(),
    ensures
        session.next(event).consistent(),
{
}

/// With credentials at hand where they are needed, a session gives the
/// attempt up only once it has failed, and then with the error it failed
/// with.
pub proof fn lemma_abort_only_when_failed(session: SessionView)
    requires
        session.consistent(),
    ensures
        session.pending() matches ActionView::Abort(error) ==> session.state
            == HandshakeState::Failed(error),
        session.pending() is Finish <==> session.state == HandshakeState::Established,
{
}

/// Through every run a session keeps what it began with, and credentials
/// at hand where they are needed.
pub proof fn lemma_run_keeps_configuration(session: SessionView, events: Seq<EventView>)
    ensures
        session.run(events).credentials == session.credentials,
        session.run(events).host == session.host,
        session.run(events).request == session.request,
        session.run(events).secure == session.secure,
        session.consistent() ==> session.run(events).consistent(),
    decreases events.len(),
{
    if events.len() > 0 {
        if session.consistent() {
            lemma_step_keeps_consistency(session, events[0]);
        }
        lemma_run_keeps_configuration(session.next(events[0]), events.drop_first());
    }
}

/// An established or failed session takes no further step: whatever the
/// event, it stays as it is.
pub proof fn lemma_terminal_states_absorb(session: SessionView, event: EventView)
    requires
        session.state.spec_is_terminal(),
    ensures
        session.next(event) == session,
{
}

/// Failure is one event away from every state that is not final: when the
/// transport fails, the attempt has failed.
pub proof fn lemma_transport_failure_ends_attempt(session: SessionView)
    requires
        !session.state.spec_is_terminal(),
    ensures
        session.next(EventView::TransportFailed).state == HandshakeState::Failed(
            HandshakeError::Transport,
        ),
{
}

/// Every step of a session that is not final moves it strictly forward:
/// no state is entered twice, and nothing is tried again.
pub proof fn lemma_step_advances(session: SessionView, event: EventView)
    requires
        !session.state.spec_is_terminal(),
    ensures
        session.next(event).state.rank() > session.state.rank(),
        session.next(event).state.rank() <= 9,
{
}

/// An attempt is over after at most nine events, whatever they are.
pub proof fn lemma_run_ends(session: SessionView, events: Seq<EventView>)
    requires
        events.len() + session.state.rank() >= 9,
    ensures
        session.run(events).state.spec_is_terminal(),
    decreases events.len(),
{
    if events.len() == 0 {
    } else if session.state.spec_is_terminal() {
        lemma_terminal_states_absorb(session, events[0]);
        lemma_run_keeps_terminal(session, events.drop_first());
    } else {
        lemma_step_advances(session, events[0]);
        lemma_run_ends(session.next(events[0]), events.drop_first());
    }
}

/// An established or failed session stays as it is through every run.
pub proof fn lemma_run_keeps_terminal(session: SessionView, events: Seq<EventView>)
    requires
        session.state.spec_is_terminal(),
    ensures
        session.run(events) == session,
    decreases events.len(),
{
    if events.len() > 0 {
        lemma_terminal_states_absorb(session, events[0]);
        lemma_run_keeps_terminal(session, events.drop_first());
    }
}

/// What the answer to the greeting leads to.
///
/// `(5, 0)` goes past the username/password exchange, straight to the
/// CONNECT request, with or without credentials at hand. `(5, 2)` with
/// credentials has exactly those credentials written next. `(5, 2)` without
/// credentials fails the attempt, as does every other answer.
pub proof fn lemma_method_selection(session: SessionView, version: u8, method: u8)
    requires
        session.state == HandshakeState::GreetingSent,
    ensures
        ({
            let next = session.next(EventView::Received(seq![version, method]));
            &&& version == 5 && method == 0 ==> next.state == HandshakeState::AuthDone
                && next.pending() == ActionView::Write(session.request)
            &&& version == 5 && method == 2 && session.credentials is Some ==> next.state
                == HandshakeState::MethodSelected && next.pending() == ActionView::Write(
                spec_auth_request(session.credentials->0),
            )
            &&& version == 5 && method == 2 && session.credentials is None ==> next.state
                == HandshakeState::Failed(HandshakeError::Protocol(ProtocolError::AuthRequired))
            &&& !(version == 5 && (method == 0 || method == 2)) ==> next.state
                == HandshakeState::Failed(
                HandshakeError::Protocol(ProtocolError::UnexpectedGreetingResponse),
            )
        }),
{
    let event = EventView::Received(seq![version, method]);
    assert(session.answers(event));
}

/// Credentials go out only when the proxy has asked for them: the one way
/// into the state that writes them is the answer `(5, 2)` to the greeting,
/// with credentials at hand.
pub proof fn lemma_credentials_only_on_request(session: SessionView, event: EventView)
    requires
        session.next(event).state == HandshakeState::MethodSelected,
    ensures
        session.state == HandshakeState::GreetingSent,
        session.credentials is Some,
        event matches EventView::Received(bytes) && bytes == seq![5u8, 2u8],
{
    assert(session.answers(event));
    let bytes = event->Received_0;
    assert(bytes =~= seq![5u8, 2u8]);
}

/// What the header of the reply to the CONNECT request leads to: the
/// reading of the bound address where the reply reports success, and else
/// the failure that the header stands for.
pub proof fn lemma_reply_header(session: SessionView, version: u8, status: u8, reserved: u8)
    requires
        session.state == HandshakeState::AddressSent,
    ensures
        ({
            let next = session.next(EventView::Received(seq![version, status, reserved]));
            match (ServerReply { version, status, reserved }).spec_verdict() {
                Ok(_) => next.state == HandshakeState::ReplyReceived && next.pending()
                    == ActionView::Read(1),
                Err(error) => next.state == HandshakeState::Failed(error) && next.pending()
                    == ActionView::Abort(error),
            }
        }),
{
    let event = EventView::Received(seq![version, status, reserved]);
    assert(session.answers(event));
}

/// TLS is layered on the tunnel only for a secure target, and only once
/// the whole reply has been read.
pub proof fn lemma_tls_only_when_secure(session: SessionView, event: EventView)
    requires
        session.next(event).state == HandshakeState::TlsUpgrading,
    ensures
        session.secure,
        session.state == HandshakeState::AddressTypeRead,
{
}

/// A session becomes established in two ways only: a plain tunnel when the
/// bound address has been read, a secure one when the TLS upgrade has
/// succeeded.
pub proof fn lemma_established_only_after_reply(session: SessionView, event: EventView)
    requires
        session.state != HandshakeState::Established,
        session.next(event).state == HandshakeState::Established,
    ensures
        (session.state == HandshakeState::AddressTypeRead && !session.secure) || (session.state
            == HandshakeState::TlsUpgrading && event is TlsUpgraded),
{
}

/// The events of an attempt in which the proxy asks for no authentication
/// and opens the tunnel: the greeting written, `(5, 0)` received, the
/// request written, the reply header `(5, 0, 0)`, the IPv4 address type,
/// and the six bytes of the bound address.
pub open spec fn plain_run(bound_address: Seq<u8>) -> Seq<EventView> {
    seq![
        EventView::Written,
        EventView::Received(seq![5u8, 0u8]),
        EventView::Written,
        EventView::Received(seq![5u8, 0u8, 0u8]),
        EventView::Received(seq![1u8]),
        EventView::Received(bound_address),
    ]
}

/// An attempt without authentication, from the first byte to the tunnel.
///
/// The session asks for the greeting to be written, for two bytes, for the
/// CONNECT request to be written, for three bytes, for one, for six; then
/// it is established, or, for a secure target, asks for the TLS upgrade
/// with the target's host.
pub proof fn lemma_plain_run(session: SessionView, bound_address: Seq<u8>)
    requires
        session.state == HandshakeState::Init,
        bound_address.len() == 6,
    ensures
        ({
            let events = plain_run(bound_address);
            &&& session.pending() == ActionView::Write(spec_greeting(session.credentials is Some))
            &&& session.run(events.take(1)).pending() == ActionView::Read(2)
            &&& session.run(events.take(2)).pending() == ActionView::Write(session.request)
            &&& session.run(events.take(3)).pending() == ActionView::Read(3)
            &&& session.run(events.take(4)).pending() == ActionView::Read(1)
            &&& session.run(events.take(5)).pending() == ActionView::Read(6)
            &&& session.secure ==> session.run(events).pending() == ActionView::UpgradeTls(
                session.host,
            )
            &&& !session.secure ==> session.run(events).pending() == ActionView::Finish
        }),
{
    let events = plain_run(bound_address);
    let s1 = session.next(events[0]);
    let s2 = s1.next(events[1]);
    let s3 = s2.next(events[2]);
    let s4 = s3.next(events[3]);
    let s5 = s4.next(events[4]);
    let s6 = s5.next(events[5]);
    assert(session.answers(events[0]));
    assert(s1.answers(events[1]));
    assert(s2.answers(events[2]));
    assert(s3.answers(events[3]));
    assert(s4.answers(events[4]));
    assert(s5.answers(events[5]));
    lemma_run_unfolds(session, events, 1);
    lemma_run_unfolds(session, events, 2);
    lemma_run_unfolds(session, events, 3);
    lemma_run_unfolds(session, events, 4);
    lemma_run_unfolds(session, events, 5);
    lemma_run_unfolds(session, events, 6);
    assert(events.take(6) =~= events);
    assert(session.run(events.take(0)) == session);
}

/// A run of `count` events is the run of one fewer, and then one step.
pub proof fn lemma_run_unfolds(session: SessionView, events: Seq<EventView>, count: int)
    requires
        0 < count <= events.len(),
    ensures
        session.run(events.take(count)) == session.run(events.take(count - 1)).next(
            events[count - 1],
        ),
    decreases count,
{
    let head = events.take(count);
    if count == 1 {
        assert(head.drop_first() =~= Seq::<EventView>::empty());
        assert(events.take(0) =~= Seq::<EventView>::empty());
        assert(session.run(events.take(0)) == session);
        assert(session.next(head[0]).run(head.drop_first()) == session.next(head[0]));
    } else {
        let rest = events.drop_first();
        assert(head.drop_first() =~= rest.take(count - 1));
        assert(events.take(count - 1).drop_first() =~= rest.take(count - 2));
        lemma_run_unfolds(session.next(events[0]), rest, count - 1);
    }
}

} // verus!
