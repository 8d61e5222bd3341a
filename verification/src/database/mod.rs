//! The credential store as the engine sees it.

pub mod handler;
