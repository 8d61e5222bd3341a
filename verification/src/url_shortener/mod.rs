//! Rules of the short-link endpoints.

pub mod utils;
