//! Memoization layer for slow, rate-limited documentation lookups.
//!
//! The heart of the crate is a cache capability with two backends: a bounded
//! in-process store with least-recently-used eviction and time-to-live expiry,
//! and a remote key-value adapter that degrades to cache misses on failure.
//! Around it stand the domain key builders, configuration types and the small
//! text utilities that the lookup tools share.

pub mod cache;
pub mod config;
pub mod error;
pub mod server;
pub mod tools;
pub mod utils;

use vstd::prelude::*;
use vstd::string::StringExecFns;

verus! {

/// Server version information
pub const VERSION: &'static str = "0.1.0";

/// Server name
pub const NAME: &'static str = "crates-docs";

/// The User-Agent string that the crate's HTTP callers present.
pub fn default_user_agent() -> (r: String)
    ensures
        r@ == "CratesDocsMCP/"@ + VERSION@,
{
    let mut s = String::from_str("CratesDocsMCP/");
    s.append(VERSION);
    s
}

} // verus!
