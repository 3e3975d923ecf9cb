//! Verified core of a player-roster reputation monitor.
//!
//! The library models the roster rows scraped from a game server's
//! web-admin page, the reputation lookup protocol against an external
//! IP-quality service, and the process-wide reputation cache that keeps
//! each distinct IP from being queried more than once.

pub mod checker;
pub mod config;
pub mod models;
pub mod report;
pub mod roster;
