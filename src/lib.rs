//! Relays alert batches pushed by an alert manager to a Gotify-style
//! notification gateway.
//!
//! The library holds the verified core: the alert model, the mapping of an
//! alert to a notification, the per-batch relay state machine, the replies
//! sent back to the alert source and the request audit records.

pub mod alertmanager;
pub mod audit;
pub mod config;
pub mod decode;
pub mod gotify;
pub mod relay;
pub mod routes;
