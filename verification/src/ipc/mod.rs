//! IPC protocol of the daemon (NDJSON over a Unix socket).

pub mod client;
pub mod protocol;
