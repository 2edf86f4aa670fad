//! Tools module
//!
//! The memoized documentation lookups: their cache layer, the pure parts of
//! the lookup, search and health tools, and the parameter types they take.

pub mod docs;
pub mod health;
