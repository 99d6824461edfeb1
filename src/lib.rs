//! Reverse SSH tunnel supervision and the HTTP benchmark endpoints it serves.
//!
//! The modules hold the decisions of each component as plain state machines
//! and functions with contracts; the program around them performs the network
//! work and hands the outcomes back.

pub mod config;
pub mod connector;
pub mod error;
pub mod measure;
pub mod retry;
pub mod routes;
pub mod session;
pub mod supervisor;
pub mod url;
