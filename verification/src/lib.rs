//! Token and authorization-flow engine: password login, an authorization-code
//! exchange for third-party clients, and e-mail activation.

pub mod auth;
pub mod config;
pub mod database;
pub mod error;
pub mod greeter;
pub mod resizer;
pub mod sso;
pub mod templater;
pub mod text;
pub mod url_shortener;
