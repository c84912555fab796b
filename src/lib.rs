//! Order lifecycle and payment reconciliation for an event-ticketing backend.
//!
//! The library holds the verified core: the order status state machine, the
//! event catalogue and order store with their invariants, admission control with
//! compensation on payment failure, and the idempotent webhook reconciler.

pub mod config;
pub mod cors;
pub mod lemmas;
pub mod models;
pub mod routes;
pub mod store;
pub mod utils;
