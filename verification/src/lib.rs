//! The state of a group of servers that run deployed applications, and the
//! decisions its scheduler takes over that state: who belongs to the group,
//! which deployment runs where, what is told to the other group, and how each
//! request is answered.
pub mod error;
pub mod id;
pub mod info;
pub mod laws;
pub mod proto;
pub mod scheduler;
pub mod server;
pub mod utils;
pub mod views;
