//! MCP tool logic.

pub mod server;
