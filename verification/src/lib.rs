//! Migration of ZeroClaw settings into Claide's configuration, and the
//! request dispatch of Claide's MCP (JSON-RPC 2.0) server.

pub mod text;
pub mod toml_model;
pub mod config;
pub mod zeroclaw;
pub mod mcp;
pub mod cli;
