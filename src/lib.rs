//! Event-sourced bank account: a pure aggregate rebuilt by replay, an
//! append-only event store guarded by optimistic concurrency, read views
//! projected idempotently from committed events, and an executor that ties
//! them together.

pub mod error;
pub mod commands;
pub mod events;
pub mod metadata;
pub mod services;
pub mod aggregate;
pub mod store;
pub mod queries;
pub mod framework;
pub mod config;
pub mod timer;
