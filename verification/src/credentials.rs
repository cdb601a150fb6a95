//! The username and password for the proxy.

use crate::error::ConfigError;
use vstd::prelude::*;
use vstd::slice::slice_to_vec;
use vstd::string::StringSliceAdditionalSpecFns;

verus! {

/// The longest username or password, in bytes, that the one-byte length
/// fields of the username/password message can announce.
pub const MAX_FIELD_LEN: usize = 255;

/// What a [`Credentials`] value stands for.
pub struct CredentialsView {
    pub username: Seq<u8>,
    pub password: Seq<u8>,
}

impl CredentialsView {
    /// Both fields fit their length byte.
    pub open spec fn fits(self) -> bool {
        self.username.len() <= MAX_FIELD_LEN && self.password.len() <= MAX_FIELD_LEN
    }
}

/// A username and a password of at most 255 bytes each.
///
/// The bound holds of every value of this type: there is no way to make one
/// that breaks it.
#[derive(Debug, PartialEq, Eq)]
pub struct Credentials {
    username: Vec<u8>,
    password: Vec<u8>,
}

impl View for Credentials {
    type V = CredentialsView;

    closed spec fn view(&self) -> CredentialsView {
        CredentialsView { username: self.username@, password: self.password@ }
    }
}

impl Credentials {
    #[verifier::type_invariant]
    spec fn within_bounds(&self) -> bool {
        self@.fits()
    }

    /// Takes a username and a password that fit, and turns down the others.
    pub fn new(username: Vec<u8>, password: Vec<u8>) -> (made: Result<Credentials, ConfigError>)
        ensures
            made is Ok <==> username@.len() <= MAX_FIELD_LEN && password@.len() <= MAX_FIELD_LEN,
            made matches Ok(credentials) ==> credentials@ == (CredentialsView {
                username: username@,
                password: password@,
            }),
            made matches Err(error) ==> error == ConfigError::CredentialsTooLong,
    {
        if username.len() > MAX_FIELD_LEN || password.len() > MAX_FIELD_LEN {
            Err(ConfigError::CredentialsTooLong)
        } else {
            Ok(Credentials { username, password })
        }
    }

    /// As [`Credentials::new`], from text: the bytes are those of its UTF-8
    /// form.
    pub fn from_text(username: &str, password: &str) -> (made: Result<Credentials, ConfigError>)
        ensures
            made is Ok <==> username.spec_bytes().len() <= MAX_FIELD_LEN
                && password.spec_bytes().len() <= MAX_FIELD_LEN,
            made matches Ok(credentials) ==> credentials@ == (CredentialsView {
                username: username.spec_bytes(),
                password: password.spec_bytes(),
            }),
            made matches Err(error) ==> error == ConfigError::CredentialsTooLong,
    {
        let username_bytes = username.as_bytes();
        let password_bytes = password.as_bytes();
        if username_bytes.len() > MAX_FIELD_LEN || password_bytes.len() > MAX_FIELD_LEN {
            Err(ConfigError::CredentialsTooLong)
        } else {
            Ok(
                Credentials {
                    username: slice_to_vec(username_bytes),
                    password: slice_to_vec(password_bytes),
                },
            )
        }
    }

    pub fn username(&self) -> (bytes: &Vec<u8>)
        ensures
            bytes@ == self@.username,
            bytes@.len() <= MAX_FIELD_LEN,
    {
        proof {
            use_type_invariant(self);
        }
        &self.username
    }

    pub fn password(&self) -> (bytes: &Vec<u8>)
        ensures
            bytes@ == self@.password,
            bytes@.len() <= MAX_FIELD_LEN,
    {
        proof {
            use_type_invariant(self);
        }
        &self.password
    }
}

/// The view of credentials that may be absent.
pub open spec fn spec_credentials(credentials: Option<Credentials>) -> Option<CredentialsView> {
    match credentials {
        Some(credentials) => Some(credentials@),
        None => None,
    }
}

impl Clone for Credentials {
    fn clone(&self) -> (copy: Credentials)
        ensures
            copy@ == self@,
    {
        proof {
            use_type_invariant(self);
        }
        Credentials { username: self.username.clone(), password: self.password.clone() }
    }
}

} // verus!
