//! Store interfaces and the errors they report.

use vstd::prelude::*;

pub mod client_credential;
pub mod url;
pub mod user;

verus! {

pub type DbResult<T> = Result<T, DbError>;

/// What a store reports when a request does not succeed.
#[derive(Debug, Clone, Copy, PartialEq, Eq, Structural)]
pub enum DbError {
    /// No row matched.
    NotFound,
    /// A uniqueness constraint refused the row.
    DuplicateKey,
    /// Any other failure of the store.
    InternalError,
}

/// The classes of database failure that a backend tells apart.
#[derive(Debug, Clone, Copy, PartialEq, Eq, Structural)]
pub enum StoreFailure {
    NotFound,
    InvalidCString,
    UniqueViolation,
    OtherDatabaseError,
    QueryBuilderError,
    DeserializationError,
    SerializationError,
    RollbackTransaction,
    AlreadyInTransaction,
    Unknown,
}

impl DbError {
    /// A missing row stays `NotFound`, a uniqueness violation becomes
    /// `DuplicateKey`, everything else is an `InternalError`.
    pub open spec fn from_failure_spec(failure: StoreFailure) -> DbError {
        match failure {
            StoreFailure::NotFound => DbError::NotFound,
            StoreFailure::UniqueViolation => DbError::DuplicateKey,
            _ => DbError::InternalError,
        }
    }

    pub fn from_failure(failure: StoreFailure) -> (e: DbError)
        ensures
            e == Self::from_failure_spec(failure),
    {
        match failure {
            StoreFailure::NotFound => DbError::NotFound,
            StoreFailure::InvalidCString => DbError::InternalError,
            StoreFailure::UniqueViolation => DbError::DuplicateKey,
            StoreFailure::OtherDatabaseError => DbError::InternalError,
            StoreFailure::QueryBuilderError => DbError::InternalError,
            StoreFailure::DeserializationError => DbError::InternalError,
            StoreFailure::SerializationError => DbError::InternalError,
            StoreFailure::RollbackTransaction => DbError::InternalError,
            StoreFailure::AlreadyInTransaction => DbError::InternalError,
            StoreFailure::Unknown => DbError::InternalError,
        }
    }

    pub open spec fn message_spec(self) -> Seq<char> {
        match self {
            DbError::NotFound => "Not Found"@,
            DbError::DuplicateKey => "Duplicate Key"@,
            DbError::InternalError => "Internal Error"@,
        }
    }

    /// The text shown for this error.
    pub fn message(&self) -> (text: String)
        ensures
            text@ == self.message_spec(),
    {
        match self {
            DbError::NotFound => "Not Found".to_owned(),
            DbError::DuplicateKey => "Duplicate Key".to_owned(),
            DbError::InternalError => "Internal Error".to_owned(),
        }
    }

    pub open spec fn status_code_spec(self) -> u16 {
        match self {
            DbError::NotFound => 404,
            DbError::DuplicateKey => 409,
            DbError::InternalError => 500,
        }
    }

    /// The HTTP status a transport answers with for this error.
    pub fn status_code(&self) -> (code: u16)
        ensures
            code == self.status_code_spec(),
    {
        match self {
            DbError::NotFound => 404,
            DbError::DuplicateKey => 409,
            DbError::InternalError => 500,
        }
    }
}

} // verus!
