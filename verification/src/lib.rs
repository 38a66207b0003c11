//! Configuration and dispatch layer for a cross-chain message-relay command.
//!
//! The library parses the command line of the `relay-messages` subcommand into
//! a typed parameter bundle, resolves the selected bridge pair to its
//! capability-checked implementation, and drives the startup sequence that
//! hands the bundle to the external relay-loop engine.

pub mod bridge;
pub mod chain;
pub mod cli;
pub mod dispatch;
pub mod lane;
pub mod mode;
pub mod text;
