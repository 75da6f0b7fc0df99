//! The scheduler of a group: its state, and how it answers requests.
pub mod authoritative;
pub mod call;
pub mod cluster;
pub mod interface;
pub mod runtime;
pub mod stats;
