//! The authorization engine and its parts.

pub mod clock;
pub mod codec;
pub mod crypto;
pub mod engine;
pub mod error;
pub mod model;
pub mod redirect;

pub use engine::Auth;
pub use error::AuthError;
