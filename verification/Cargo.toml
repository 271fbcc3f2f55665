[package]
name = "claide"
version = "0.1.0"
edition = "2021"
publish = false

[dependencies]
# The library parses TOML with it.
toml = "=0.8.23"
# Only app/: derives of the wire-format copies of the MCP protocol types
# (ListToolsResult, CallToolResult, ...), whose own definitions are not here.
serde = { version = "=1.0.229", features = ["derive"] }
# Only app/: JSON values of the MCP transport and of the config file.
serde_json = "=1.0.154"
# Only app/: the home directory.
dirs = "=5.0.1"
# Only app/: errors of the command line.
anyhow = "=1.0.104"
