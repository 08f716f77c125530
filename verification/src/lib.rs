//! Verified core of a keeper registry for interval-based task automation.
//!
//! The registry ([`registry::AetherKeeper`]) decides every operation on tasks
//! and their funds; what an operation needs from the ledger host (token
//! transfers, the target call, events) comes back as a [`host::Plan`]. The
//! keeper side ([`executor`]) decides which tasks are ready and how failed
//! submissions are retried.

pub mod error;
pub mod storage;
pub mod events;
pub mod host;
pub mod model;
pub mod registry;
pub mod text;
pub mod config;
pub mod executor;
pub mod laws;
