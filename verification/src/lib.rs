//! Typed extraction of operation inputs from HTTP requests, and the error
//! taxonomy of endpoint resolution.

pub mod endpoint;
pub mod rejection;
pub mod request;
