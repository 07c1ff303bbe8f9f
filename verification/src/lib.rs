//! Supervisor core for a plugin host child process that speaks line-delimited
//! JSON-RPC 2.0 over its standard streams.

pub mod commands;
pub mod ipc;
pub mod text;
