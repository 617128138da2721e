//! Reconciliation engine for per-client DNS overrides on a DHCP server.
//!
//! The device's lease and option records are the single source of truth; every
//! operation re-reads them, classifies ownership against a configured marker,
//! and only then decides whether to create, update, or delete records of its
//! own. The engine never touches a record owned by another manager.

pub mod channel;
pub mod config;
pub mod decide;
pub mod engine;
pub mod errors;
pub mod laws;
pub mod model;
pub mod naming;
pub mod ownership;
pub mod repo;
pub mod seq_find;
pub mod strutil;
pub mod utils;
