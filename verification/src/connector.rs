//! The configuration that every handshake through one proxy shares.

use crate::credentials::{spec_credentials, Credentials, CredentialsView, MAX_FIELD_LEN};
use crate::error::ConfigError;
use crate::machine::spec_begin;
use crate::session::HandshakeSession;
use crate::target::{ProxyEndpoint, TargetRequest};
use vstd::prelude::*;
use vstd::string::StringSliceAdditionalSpecFns;

verus! {

/// A [`Socksv5Connector`] as contracts see it.
pub struct ConnectorView {
    pub proxy_addr: ProxyEndpoint,
    pub credentials: Option<CredentialsView>,
}

/// Where the proxy is and how to sign in to it. A connector is made once
/// and then only read: each handshake gets a session of its own.
#[derive(Debug)]
pub struct Socksv5Connector {
    proxy_addr: ProxyEndpoint,
    creds: Option<Credentials>,
}

impl View for Socksv5Connector {
    type V = ConnectorView;

    closed spec fn view(&self) -> ConnectorView {
        ConnectorView { proxy_addr: self.proxy_addr, credentials: spec_credentials(self.creds) }
    }
}

impl Socksv5Connector {
    /// A connector for the proxy at `proxy_addr`, without credentials.
    pub fn new(proxy_addr: ProxyEndpoint) -> (connector: Socksv5Connector)
        ensures
            connector@ == (ConnectorView { proxy_addr, credentials: None }),
    {
        Socksv5Connector { proxy_addr, creds: None }
    }

    /// Gives the connector a username and a password, as text. Either of
    /// them longer than 255 bytes is turned down.
    pub fn with_creds(self, creds: &(&str, &str)) -> (made: Result<Socksv5Connector, ConfigError>)
        ensures
            made is Ok <==> creds.0.spec_bytes().len() <= MAX_FIELD_LEN && creds.1.spec_bytes().len()
                <= MAX_FIELD_LEN,
            made matches Ok(connector) ==> connector@ == (ConnectorView {
                proxy_addr: self@.proxy_addr,
                credentials: Some(
                    CredentialsView {
                        username: creds.0.spec_bytes(),
                        password: creds.1.spec_bytes(),
                    },
                ),
            }),
            made matches Err(error) ==> error == ConfigError::CredentialsTooLong,
    {
        match Credentials::from_text(creds.0, creds.1) {
            Ok(credentials) => Ok(
                Socksv5Connector { proxy_addr: self.proxy_addr, creds: Some(credentials) },
            ),
            Err(error) => Err(error),
        }
    }

    /// Gives the connector a username and a password, as bytes. Either of
    /// them longer than 255 bytes is turned down.
    pub fn with_creds_binary(self, creds: &(Vec<u8>, Vec<u8>)) -> (made: Result<
        Socksv5Connector,
        ConfigError,
    >)
        ensures
            made is Ok <==> creds.0@.len() <= MAX_FIELD_LEN && creds.1@.len() <= MAX_FIELD_LEN,
            made matches Ok(connector) ==> connector@ == (ConnectorView {
                proxy_addr: self@.proxy_addr,
                credentials: Some(CredentialsView { username: creds.0@, password: creds.1@ }),
            }),
            made matches Err(error) ==> error == ConfigError::CredentialsTooLong,
    {
        if creds.0.len() > MAX_FIELD_LEN || creds.1.len() > MAX_FIELD_LEN {
            return Err(ConfigError::CredentialsTooLong);
        }
        let username = creds.0.clone();
        let password = creds.1.clone();
        assert(username@ =~= creds.0@);
        assert(password@ =~= creds.1@);
        match Credentials::new(username, password) {
            Ok(credentials) => Ok(
                Socksv5Connector { proxy_addr: self.proxy_addr, creds: Some(credentials) },
            ),
            Err(error) => Err(error),
        }
    }

    pub fn proxy_addr(&self) -> (proxy_addr: ProxyEndpoint)
        ensures
            proxy_addr == self@.proxy_addr,
    {
        self.proxy_addr
    }

    pub fn credentials(&self) -> (credentials: Option<&Credentials>)
        ensures
            credentials is Some <==> self@.credentials is Some,
            credentials matches Some(found) ==> self@.credentials == Some(found@),
    {
        self.creds.as_ref()
    }

    /// Begins a handshake for `target`, with a copy of the connector's
    /// credentials. A target that cannot be asked for is turned down here,
    /// before anything is written.
    pub fn handshake(&self, target: &TargetRequest) -> (made: Result<HandshakeSession, ConfigError>)
        ensures
            match spec_begin(*target, self@.credentials) {
                Ok(session) => made matches Ok(begun) && begun@ == session,
                Err(error) => made matches Err(found) && found == error,
            },
    {
        let credentials: Option<Credentials> = match &self.creds {
            Some(credentials) => Some(credentials.clone()),
            None => None,
        };
        HandshakeSession::new(target, credentials)
    }
}

} // verus!
