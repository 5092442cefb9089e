//! Tools of MCP servers.

pub mod client;
pub mod protocol;
