//! Server module
//!
//! The pure parts of the server: authentication configuration and the
//! transport mode. The protocol plumbing around them lives with the
//! program, not with the library.

pub mod auth;
pub mod transport;
