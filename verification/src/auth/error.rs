use vstd::prelude::*;
use vstd::std_specs::convert::FromSpecImpl;
use crate::database::handler::{DbError, DbResult};

verus! {

/// Why an operation of the engine was refused.
#[derive(Debug, Clone, Copy, PartialEq, Eq, Structural)]
pub enum AuthError {
    NotFound,
    NotActivated,
    WrongPassword,
    InvalidToken,
    ExpiredToken,
    InvalidRedirectUri,
    InvalidClientID,
    UserAlreadyExist,
    UserAlreadyActivated,
    /// The hashing library failed.
    CryptoError,
    /// The store or the clock failed, or an expiry is out of range.
    InternalError,
}

/// How a failure of the store reads to a caller of the engine: a uniqueness
/// conflict means the user exists already, a missing row stays missing, any
/// other failure is internal.
pub open spec fn store_error(e: DbError) -> AuthError {
    match e {
        DbError::DuplicateKey => AuthError::UserAlreadyExist,
        DbError::NotFound => AuthError::NotFound,
        DbError::InternalError => AuthError::InternalError,
    }
}

/// How the outcome of a store request reads to a caller of the engine.
pub open spec fn store_result<T>(outcome: DbResult<T>) -> Result<T, AuthError> {
    match outcome {
        Ok(value) => Ok(value),
        Err(e) => Err(store_error(e)),
    }
}

/// Hands a store's answer on, its error as the engine reports it.
pub fn from_store<T>(outcome: DbResult<T>) -> (res: Result<T, AuthError>)
    ensures
        res == store_result(outcome),
{
    match outcome {
        Ok(value) => Ok(value),
        Err(e) => Err(AuthError::from(e)),
    }
}

impl From<DbError> for AuthError {
    fn from(e: DbError) -> (r: AuthError) {
        match e {
            DbError::DuplicateKey => AuthError::UserAlreadyExist,
            DbError::NotFound => AuthError::NotFound,
            DbError::InternalError => AuthError::InternalError,
        }
    }
}

impl FromSpecImpl<DbError> for AuthError {
    open spec fn obeys_from_spec() -> bool {
        true
    }

    open spec fn from_spec(e: DbError) -> AuthError {
        store_error(e)
    }
}

impl AuthError {
    pub open spec fn message_spec(self) -> Seq<char> {
        match self {
            AuthError::NotFound => "User not found"@,
            AuthError::WrongPassword => "Wrong password"@,
            AuthError::InvalidToken => "Invalid token"@,
            AuthError::ExpiredToken => "Expired token"@,
            AuthError::InvalidRedirectUri => "Invalid redirect uri"@,
            AuthError::InvalidClientID => "Invalid client id"@,
            AuthError::NotActivated => "Not activated"@,
            AuthError::UserAlreadyExist => "User/Email already exist"@,
            AuthError::UserAlreadyActivated => "User already activated"@,
            AuthError::CryptoError => "Crypto error"@,
            AuthError::InternalError => "Internal error"@,
        }
    }

    /// The text shown for this error.
    pub fn message(&self) -> (text: String)
        ensures
            text@ == self.message_spec(),
    {
        match self {
            AuthError::NotFound => "User not found".to_owned(),
            AuthError::WrongPassword => "Wrong password".to_owned(),
            AuthError::InvalidToken => "Invalid token".to_owned(),
            AuthError::ExpiredToken => "Expired token".to_owned(),
            AuthError::InvalidRedirectUri => "Invalid redirect uri".to_owned(),
            AuthError::InvalidClientID => "Invalid client id".to_owned(),
            AuthError::NotActivated => "Not activated".to_owned(),
            AuthError::UserAlreadyExist => "User/Email already exist".to_owned(),
            AuthError::UserAlreadyActivated => "User already activated".to_owned(),
            AuthError::CryptoError => "Crypto error".to_owned(),
            AuthError::InternalError => "Internal error".to_owned(),
        }
    }

    /// Not found is 404; an expired token and an inactive account are 401, so
    /// that a client can tell them from a bad request (400); failures of the
    /// server's own parts are 500.
    pub open spec fn status_code_spec(self) -> u16 {
        match self {
            AuthError::NotFound => 404,
            AuthError::WrongPassword => 400,
            AuthError::InvalidToken => 400,
            AuthError::InvalidRedirectUri => 400,
            AuthError::InvalidClientID => 400,
            AuthError::UserAlreadyExist => 400,
            AuthError::UserAlreadyActivated => 400,
            AuthError::ExpiredToken => 401,
            AuthError::NotActivated => 401,
            AuthError::CryptoError => 500,
            AuthError::InternalError => 500,
        }
    }

    /// The HTTP status a transport answers with for this error.
    pub fn status_code(&self) -> (code: u16)
        ensures
            code == self.status_code_spec(),
    {
        match self {
            AuthError::NotFound => 404,
            AuthError::ExpiredToken => 401,
            AuthError::NotActivated => 401,
            AuthError::CryptoError => 500,
            AuthError::InternalError => 500,
            _ => 400,
        }
    }
}

} // verus!
