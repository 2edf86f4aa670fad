//! Document query tools module

pub mod cache;
pub mod lookup;
pub mod search;
