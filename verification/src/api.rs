//! Deep Research API: data types, the HTTP client and the client logic.

pub mod client;
pub mod http;
pub mod types;
