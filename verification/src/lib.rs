//! Verified core of an MCP server backed by rust-analyzer.

pub mod text;
pub mod path;
pub mod json;
pub mod rpc;
pub mod pending;
pub mod lsp;
pub mod rust_analyzer;
pub mod client_config;
pub mod resolve;
pub mod workspace;
pub mod server;
