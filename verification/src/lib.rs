//! A read-through cache for game-server statistics.
//!
//! The crate owns a single in-memory snapshot of the most recently fetched
//! leaderboard and server list, stamps each field with the Unix time of its
//! last successful refresh, and serves consistent copies to any number of
//! readers while a periodic refresh task replaces the fields one at a time.

pub mod data;
pub mod error;
pub mod gateway;
pub mod laws;
pub mod responses;
pub mod snapshot;
pub mod store;
