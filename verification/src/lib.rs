//! Fathom: a client library for the OpenAI Deep Research (Responses) API.
//!
//! - `api::types` models requests and responses and reads research output
//!   (final report, citations, reasoning summaries, step counts).
//! - `api::client` builds create requests from options, holds the HTTP
//!   client configuration, and decides how polling proceeds.
//! - `mcp::server` maps MCP tool parameters to requests and shapes tool results.
//! - `cli` holds the command-line definitions and the text the commands print.
//! - `text` holds the string building blocks used by the above.

pub mod api;
pub mod cli;
pub mod mcp;
pub mod text;
