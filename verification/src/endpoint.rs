//! Endpoint resolution.

pub mod error;
