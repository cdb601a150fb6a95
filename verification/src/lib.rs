//! Client side of the SOCKS5 handshake (RFC 1928) with username/password
//! authentication (RFC 1929).
//!
//! The crate holds the protocol and none of the I/O: it encodes what the
//! client sends, judges what the proxy answers, and sequences the two in a
//! state machine that a transport driver steps through. Every function comes
//! with a contract over the bytes on the wire.

pub mod connector;
pub mod credentials;
pub mod error;
pub mod machine;
pub mod reply;
pub mod session;
pub mod target;
pub mod wire;

pub use connector::{ConnectorView, Socksv5Connector};
pub use credentials::{Credentials, CredentialsView};
pub use error::{ConfigError, ErrorClass, HandshakeError, ProtocolError, ServerError};
pub use reply::{MethodSelection, ServerReply};
pub use machine::{ActionView, EventView, HandshakeState, SessionView};
pub use session::{Action, Event, HandshakeSession};
pub use target::{ProxyEndpoint, Scheme, TargetRequest};
