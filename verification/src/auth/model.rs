//! What the three artifacts say, by kind.

use vstd::prelude::*;
use crate::auth::codec::{Claims, ClaimsView};
use crate::auth::crypto::AuthResult;

verus! {

pub type Token = String;

pub type RefreshToken = String;

pub type AuthCode = String;

/// The claims of an access token.
pub struct TokenPayload {
    /// The discriminator.
    pub salt: String,
    pub username: String,
    /// Milliseconds since the epoch.
    pub expiry_timestamp: u128,
}

pub struct TokenPayloadView {
    pub salt: Seq<char>,
    pub username: Seq<char>,
    pub expiry_timestamp: u128,
}

impl View for TokenPayload {
    type V = TokenPayloadView;

    open spec fn view(&self) -> TokenPayloadView {
        TokenPayloadView {
            salt: self.salt@,
            username: self.username@,
            expiry_timestamp: self.expiry_timestamp,
        }
    }
}

/// The claims of an authorization code: a user bound to a client.
pub struct AuthCodePayload {
    /// The discriminator.
    pub salt: String,
    pub username: String,
    pub client_id: String,
    /// Milliseconds since the epoch.
    pub expiry_timestamp: u128,
}

pub struct AuthCodePayloadView {
    pub salt: Seq<char>,
    pub username: Seq<char>,
    pub client_id: Seq<char>,
    pub expiry_timestamp: u128,
}

impl View for AuthCodePayload {
    type V = AuthCodePayloadView;

    open spec fn view(&self) -> AuthCodePayloadView {
        AuthCodePayloadView {
            salt: self.salt@,
            username: self.username@,
            client_id: self.client_id@,
            expiry_timestamp: self.expiry_timestamp,
        }
    }
}

/// The claims of an activation code.
pub struct ActivationCodePayload {
    /// The discriminator.
    pub salt: String,
    pub username: String,
    /// Milliseconds since the epoch.
    pub expiry_timestamp: u128,
}

pub struct ActivationCodePayloadView {
    pub salt: Seq<char>,
    pub username: Seq<char>,
    pub expiry_timestamp: u128,
}

impl View for ActivationCodePayload {
    type V = ActivationCodePayloadView;

    open spec fn view(&self) -> ActivationCodePayloadView {
        ActivationCodePayloadView {
            salt: self.salt@,
            username: self.username@,
            expiry_timestamp: self.expiry_timestamp,
        }
    }
}

/// An access token's claims, read from a record of claims.
pub open spec fn token_payload_of(claims: ClaimsView) -> TokenPayloadView {
    TokenPayloadView {
        salt: claims.salt,
        username: claims.username,
        expiry_timestamp: claims.expiry_timestamp,
    }
}

/// An authorization code's claims, read from a record that names a client.
pub open spec fn auth_code_payload_of(claims: ClaimsView) -> AuthCodePayloadView
    recommends
        claims.client_id is Some,
{
    AuthCodePayloadView {
        salt: claims.salt,
        username: claims.username,
        client_id: claims.client_id->0,
        expiry_timestamp: claims.expiry_timestamp,
    }
}

/// An activation code's claims, read from a record of claims.
pub open spec fn activation_code_payload_of(claims: ClaimsView) -> ActivationCodePayloadView {
    ActivationCodePayloadView {
        salt: claims.salt,
        username: claims.username,
        expiry_timestamp: claims.expiry_timestamp,
    }
}

/// The view of a result that holds an access token's claims.
pub open spec fn token_payload_result(payload: AuthResult<TokenPayload>) -> AuthResult<
    TokenPayloadView,
> {
    match payload {
        Ok(p) => Ok(p@),
        Err(e) => Err(e),
    }
}

impl TokenPayload {
    pub fn from_claims(claims: Claims) -> (payload: TokenPayload)
        ensures
            payload@ == token_payload_of(claims@),
    {
        TokenPayload {
            salt: claims.salt,
            username: claims.username,
            expiry_timestamp: claims.expiry_timestamp,
        }
    }
}

impl AuthCodePayload {
    /// `None` where the record names no client.
    pub fn from_claims(claims: Claims) -> (payload: Option<AuthCodePayload>)
        ensures
            match claims@.client_id {
                Some(_) => payload matches Some(p) && p@ == auth_code_payload_of(claims@),
                None => payload is None,
            },
    {
        match claims.client_id {
            Some(client_id) => Some(
                AuthCodePayload {
                    salt: claims.salt,
                    username: claims.username,
                    client_id,
                    expiry_timestamp: claims.expiry_timestamp,
                },
            ),
            None => None,
        }
    }
}

impl ActivationCodePayload {
    pub fn from_claims(claims: Claims) -> (payload: ActivationCodePayload)
        ensures
            payload@ == activation_code_payload_of(claims@),
    {
        ActivationCodePayload {
            salt: claims.salt,
            username: claims.username,
            expiry_timestamp: claims.expiry_timestamp,
        }
    }
}

} // verus!
