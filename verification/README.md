# claide (verified core)

Migration of a ZeroClaw installation into Claide, and the request dispatch of
Claide's MCP server, written in Verus.

- `src/text.rs` — string helpers: decimal rendering, left-to-right replacement.
- `src/toml_model.rs` — a TOML document as plain values, path lookups, and the
  parse of TOML text by the `toml` crate.
- `src/config.rs` — the part of Claide's configuration that the migration
  touches, with provider lookup by name.
- `src/zeroclaw.rs` — the conversion of a ZeroClaw config and its report, the
  loading errors, the choice of the ZeroClaw directory, and the decisions of the
  workspace copy.
- `src/mcp.rs` — JSON values, MCP response types, and the dispatch of
  `initialize`, `notifications/initialized`, `tools/list` and `tools/call`.
- `src/cli.rs` — the answer to a `[Y/n]` prompt, and the step function of the
  `migrate` commands (`--from`, `--yes`, `--dry-run`, prompts, and the order
  of their steps), which `app/` drives.
- `app/` — the command line, file system access, config persistence, and the
  `serde_json` side of the MCP handler.
