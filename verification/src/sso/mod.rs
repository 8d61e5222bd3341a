//! What the single sign-on endpoints need beside the engine.

pub mod authorize;
pub mod error;
pub mod utils;
