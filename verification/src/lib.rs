//! Request building, patch-body pruning and reply handling for a client of
//! the Konnect API-product service.
//!
//! Everything here works on plain values: the caller performs the network
//! call and the file reads, and hands their results in.

pub mod api;
pub mod cli;
pub mod command;
pub mod harness;
pub mod utils;
