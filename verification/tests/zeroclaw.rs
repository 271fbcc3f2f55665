use claide::cli::is_affirmative;
use claide::config::{get_provider_mut, Config, ProviderConfig, ProvidersConfig};
use claide::toml_model::TomlValue;
use claide::zeroclaw::{
    convert_zeroclaw_config, has_executable_bit, parse_zeroclaw_config, persona_files,
    pick_zeroclaw_dir, workspace_dirs, CopyAction, WorkspaceCopyResult, ZeroClawDirChoice,
    ZeroClawLoadError,
};

fn sample_zeroclaw_toml() -> &'static str {
    r#"
workspace = "~/.zeroclaw/workspace"
compact_context = true
max_history_messages = 6

[default_chat_model]
provider = "gemini"
model = "gemini-2.5-flash"
api_key = "AIza-test-key"

[discord]
bot_token = "MTIz-discord-token"
allowed_users = ["691964645736448032"]

[transcription]
enabled = true
model = "whisper-large-v3-turbo"

[shell]
workspace_only = false
allowed_commands = ["kb-save", "kb-ask", "birthday-check"]

[heartbeat]
enabled = true
interval_seconds = 300
"#
}

fn parse(text: &str) -> TomlValue {
    match parse_zeroclaw_config("config.toml", text) {
        Ok(v) => v,
        Err(e) => panic!("{}", e.full_message()),
    }
}

#[test]
fn test_convert_zeroclaw_provider() {
    let toml_val = parse(sample_zeroclaw_toml());
    let mut config = Config::default();
    let result = convert_zeroclaw_config(&toml_val, &mut config);

    let gemini = config.providers.gemini.as_ref().unwrap();
    assert_eq!(gemini.api_key.as_deref(), Some("AIza-test-key"));
    assert_eq!(config.agents.defaults.model, "gemini-2.5-flash");
    assert!(result.migrated.iter().any(|s| s.contains("gemini")));
}

#[test]
fn test_convert_zeroclaw_discord() {
    let toml_val = parse(sample_zeroclaw_toml());
    let mut config = Config::default();
    convert_zeroclaw_config(&toml_val, &mut config);

    let dc = config.channels.discord.as_ref().unwrap();
    assert!(dc.enabled);
    assert_eq!(dc.token, "MTIz-discord-token");
    assert_eq!(dc.allow_from, vec!["691964645736448032"]);
}

#[test]
fn test_convert_zeroclaw_workspace_path_rewrite() {
    let toml_val = parse(sample_zeroclaw_toml());
    let mut config = Config::default();
    convert_zeroclaw_config(&toml_val, &mut config);

    assert_eq!(config.agents.defaults.workspace, "~/.claide/workspace");
}

#[test]
fn test_convert_zeroclaw_transcription() {
    let toml_val = parse(sample_zeroclaw_toml());
    let mut config = Config::default();
    convert_zeroclaw_config(&toml_val, &mut config);

    assert!(config.transcription.enabled);
    assert_eq!(config.transcription.model, "whisper-large-v3-turbo");
}

#[test]
fn test_convert_zeroclaw_not_portable() {
    let toml_val = parse(sample_zeroclaw_toml());
    let mut config = Config::default();
    let result = convert_zeroclaw_config(&toml_val, &mut config);

    // heartbeat should be not-portable
    assert!(result.not_portable.iter().any(|s| s.contains("heartbeat")));
}

#[test]
fn test_convert_zeroclaw_empty() {
    let toml_val = parse("");
    let mut config = Config::default();
    let result = convert_zeroclaw_config(&toml_val, &mut config);

    assert!(result.migrated.is_empty());
    assert!(result.not_portable.is_empty());
}

// ---------------------------------------------------------------------------
// Further cases
// ---------------------------------------------------------------------------

const CURRENT_LAYOUT: &str = r#"
default_provider = "openrouter"
api_key = "sk-or-key"
default_model = "mistralai/mistral-large"
default_temperature = 0.5
workspace = "/home/u/.zeroclaw/.zeroclaw/ws"
runtime_trace_mode = "rolling"

[channels_config.discord]
bot_token = "tok"
allowed_users = ["1", 2, "3"]

[agent]
compact_context = false
max_history_messages = 40

[transcription]
api_url = "https://api.example/v1"

[cost]
enabled = true
daily_limit_usd = 5.0

[autonomy]
allowed_commands = ["ls", "cat"]
workspace_only = true
auto_approve = []

[cron]
jobs = []
"#;

#[test]
fn test_convert_current_layout_all_sections() {
    let zc = parse(CURRENT_LAYOUT);
    let mut config = Config::default();
    let r = convert_zeroclaw_config(&zc, &mut config);

    assert_eq!(
        config.providers.openrouter.as_ref().unwrap().api_key.as_deref(),
        Some("sk-or-key")
    );
    assert!(config.providers.gemini.is_none());
    assert_eq!(config.agents.defaults.model, "mistralai/mistral-large");
    assert_eq!(config.agents.defaults.temperature_bits, 0.5f64.to_bits());
    assert_eq!(config.agents.defaults.workspace, "/home/u/.claide/.claide/ws");
    let dc = config.channels.discord.as_ref().unwrap();
    assert!(dc.enabled);
    assert_eq!(dc.token, "tok");
    assert_eq!(dc.allow_from, vec!["1", "3"]);
    assert!(!config.compaction.enabled);
    assert!(config.cost.enabled);

    assert_eq!(
        r.migrated,
        vec![
            "default_provider (openrouter)",
            "default_model",
            "default_temperature",
            "workspace",
            "channels_config.discord.bot_token",
            "channels_config.discord.allowed_users",
            "agent.compact_context",
            "cost.enabled",
            "autonomy.allowed_commands (2 commands)",
        ]
    );
    assert_eq!(
        r.skipped,
        vec![
            ("max_history_messages".to_string(), "Claide uses compaction tiers".to_string()),
            (
                "shell.workspace_only".to_string(),
                "Claide uses different shell security model".to_string()
            ),
            ("runtime_trace_mode".to_string(), "Claide uses audit trail instead".to_string()),
        ]
    );
    assert_eq!(r.not_portable.len(), 1);
    assert!(r.not_portable[0].starts_with("auto_approve — "));
    assert_eq!(r.warnings.len(), 5);
    assert_eq!(
        r.warnings[0],
        "max_history_messages=40 — Claide uses compaction tiers instead. Set compaction.context_limit for similar behavior."
    );
    assert_eq!(
        r.warnings[1],
        "transcription.api_url=https://api.example/v1 — Claide routes transcription through configured providers. Ensure the provider with transcription support is configured."
    );
    assert!(r.warnings[2].starts_with("cost.daily_limit_usd"));
    assert!(r.warnings[3].starts_with("autonomy.allowed_commands migrated"));
    assert!(r.warnings[4].starts_with("ZeroClaw cron config found."));
}

#[test]
fn test_convert_unknown_provider_is_skipped() {
    let zc = parse("default_provider = \"mystery\"\napi_key = \"k\"\n");
    let mut config = Config::default();
    let r = convert_zeroclaw_config(&zc, &mut config);
    assert!(r.migrated.is_empty());
    assert_eq!(
        r.skipped,
        vec![("default_provider: mystery".to_string(), "Unknown provider".to_string())]
    );
    assert!(config.providers.openai.is_none() && config.providers.groq.is_none());
}

#[test]
fn test_convert_google_goes_to_gemini() {
    let zc = parse("default_provider = \"google\"\napi_key = \"g\"\n");
    let mut config = Config::default();
    let r = convert_zeroclaw_config(&zc, &mut config);
    assert_eq!(config.providers.gemini.as_ref().unwrap().api_key.as_deref(), Some("g"));
    assert_eq!(r.migrated, vec!["default_provider (google)"]);
}

#[test]
fn test_convert_model_needs_provider() {
    // Without a provider, neither the model nor the temperature is read.
    let zc = parse("default_model = \"m\"\ndefault_temperature = 0.1\n");
    let mut config = Config::default();
    let r = convert_zeroclaw_config(&zc, &mut config);
    assert!(r.migrated.is_empty());
    assert_eq!(config.agents.defaults.model, "");
}

#[test]
fn test_convert_workspace_only_false_warns() {
    let zc = parse("[autonomy]\nworkspace_only = false\nallowed_commands = []\n");
    let mut config = Config::default();
    let r = convert_zeroclaw_config(&zc, &mut config);
    assert!(r.migrated.is_empty());
    assert_eq!(r.warnings.len(), 1);
    assert!(r.warnings[0].starts_with("shell.workspace_only=false"));
}

#[test]
fn test_convert_negative_history_wraps() {
    let zc = parse("[agent]\nmax_history_messages = -1\n");
    let mut config = Config::default();
    let r = convert_zeroclaw_config(&zc, &mut config);
    assert!(r.warnings[0].starts_with("max_history_messages=18446744073709551615 "));
}

#[test]
fn test_convert_twice_same_config() {
    let zc = parse(CURRENT_LAYOUT);
    let mut once = Config::default();
    convert_zeroclaw_config(&zc, &mut once);
    let mut twice = Config::default();
    convert_zeroclaw_config(&zc, &mut twice);
    let r2 = convert_zeroclaw_config(&zc, &mut twice);
    assert_eq!(r2.migrated.len(), 9);
    assert_eq!(once.agents.defaults.workspace, twice.agents.defaults.workspace);
    assert_eq!(once.agents.defaults.model, twice.agents.defaults.model);
    let (a, b) = (once.channels.discord.unwrap(), twice.channels.discord.unwrap());
    assert_eq!(a.allow_from, b.allow_from);
    assert_eq!(a.token, b.token);
    assert_eq!(
        once.providers.openrouter.unwrap().api_key,
        twice.providers.openrouter.unwrap().api_key
    );
}

#[test]
fn test_convert_keeps_existing_discord_users() {
    let zc = parse("[discord]\nbot_token = \"t\"\n");
    let mut config = Config::default();
    config.channels.discord = Some(claide::config::DiscordConfig {
        enabled: false,
        token: "old".to_string(),
        allow_from: vec!["42".to_string()],
    });
    let r = convert_zeroclaw_config(&zc, &mut config);
    let dc = config.channels.discord.unwrap();
    assert!(dc.enabled);
    assert_eq!(dc.token, "t");
    assert_eq!(dc.allow_from, vec!["42"]);
    assert_eq!(r.migrated, vec!["channels_config.discord.bot_token"]);
}

#[test]
fn test_parse_error_names_the_file() {
    match parse_zeroclaw_config("/x/config.toml", "key = = 1") {
        Err(e) => {
            assert_eq!(e.message(), "Failed to parse /x/config.toml as TOML");
            assert!(e.full_message().starts_with("Failed to parse /x/config.toml as TOML: "));
            assert!(matches!(e, ZeroClawLoadError::Parse { .. }));
        }
        Ok(_) => panic!("invalid TOML parsed"),
    }
}

#[test]
fn test_parse_nested_values() {
    let v = parse("a = 1\n[b]\nc = [true, \"x\"]\n");
    match v {
        TomlValue::Table(entries) => {
            assert_eq!(entries.len(), 2);
            assert_eq!(entries[0].0, "a");
            assert!(matches!(entries[0].1, TomlValue::Integer(1)));
            match &entries[1].1 {
                TomlValue::Table(inner) => match &inner[0].1 {
                    TomlValue::Array(items) => {
                        assert!(matches!(items[0], TomlValue::Boolean(true)));
                        assert!(matches!(&items[1], TomlValue::Str(s) if s == "x"));
                    }
                    _ => panic!("expected an array"),
                },
                _ => panic!("expected a table"),
            }
        }
        _ => panic!("expected a table"),
    }
}

#[test]
fn test_read_error_message() {
    let e = ZeroClawLoadError::Read { path: "/p".to_string(), detail: "No such file".to_string() };
    assert_eq!(e.message(), "Failed to read /p");
    assert_eq!(e.full_message(), "Failed to read /p: No such file");
}

#[test]
fn test_pick_zeroclaw_dir() {
    assert_eq!(pick_zeroclaw_dir(Some(true), Some(true)), Some(ZeroClawDirChoice::StateDirVariable));
    assert_eq!(pick_zeroclaw_dir(Some(false), Some(true)), Some(ZeroClawDirChoice::HomeDefault));
    assert_eq!(pick_zeroclaw_dir(None, Some(true)), Some(ZeroClawDirChoice::HomeDefault));
    assert_eq!(pick_zeroclaw_dir(Some(false), Some(false)), None);
    assert_eq!(pick_zeroclaw_dir(None, None), None);
}

#[test]
fn test_get_provider_mut_names() {
    let mut p = ProvidersConfig {
        anthropic: None,
        openai: None,
        openrouter: None,
        groq: None,
        gemini: Some(ProviderConfig { api_key: Some("kept".to_string()) }),
        ollama: None,
    };
    assert!(get_provider_mut(&mut p, "unknown").is_none());
    assert!(p.openai.is_none());
    {
        let g = get_provider_mut(&mut p, "google").unwrap();
        assert_eq!(g.api_key.as_deref(), Some("kept"));
    }
    get_provider_mut(&mut p, "ollama").unwrap().api_key = Some("o".to_string());
    assert_eq!(p.ollama.as_ref().unwrap().api_key.as_deref(), Some("o"));
    assert!(get_provider_mut(&mut p, "anthropic").unwrap().api_key.is_none());
    assert!(p.anthropic.is_some());
}

#[test]
fn test_workspace_copy_plan() {
    let mut res = WorkspaceCopyResult::new();
    assert!(matches!(res.plan_persona_file("SOUL.md", false, false), CopyAction::Ignore));
    assert!(matches!(res.plan_persona_file("SOUL.md", true, true), CopyAction::Skip));
    match res.plan_persona_file("USER.md", true, false) {
        CopyAction::Copy(n) => res.record_copied(n),
        _ => panic!("expected a copy"),
    }
    match res.plan_dir_entry("data/", "sub", true, false) {
        CopyAction::Descend(p) => assert_eq!(p, "data/sub/"),
        _ => panic!("expected a descent"),
    }
    assert!(matches!(res.plan_dir_entry("scripts/", "run", false, true), CopyAction::Skip));
    match res.plan_dir_entry("data/sub/", "b.txt", false, false) {
        CopyAction::Copy(n) => res.record_copied(n),
        _ => panic!("expected a copy"),
    }
    assert_eq!(res.copied_files, vec!["USER.md", "data/sub/b.txt"]);
    assert_eq!(
        res.skipped_files,
        vec![
            ("SOUL.md".to_string(), "already exists".to_string()),
            ("scripts/run".to_string(), "already exists".to_string()),
        ]
    );
}

#[test]
fn test_workspace_lists() {
    assert_eq!(
        persona_files(),
        vec!["SOUL.md", "USER.md", "IDENTITY.md", "AGENTS.md", "TOOLS.md", "MEMORY.md"]
    );
    let dirs = workspace_dirs();
    assert_eq!(dirs[0], ("data".to_string(), "data/".to_string()));
    assert_eq!(dirs[1], ("scripts".to_string(), "scripts/".to_string()));
    assert_eq!(dirs[2], ("skills".to_string(), "skills/".to_string()));
}

#[test]
fn test_executable_bit() {
    assert!(has_executable_bit(0o755));
    assert!(has_executable_bit(0o100));
    assert!(!has_executable_bit(0o644));
}

#[test]
fn test_affirmative_answers() {
    for a in ["", "y", "Y", "yes", "YES", "yEs"] {
        assert!(is_affirmative(a), "{:?}", a);
    }
    for a in ["n", "no", "ye", "yess", "x", "YESS"] {
        assert!(!is_affirmative(a), "{:?}", a);
    }
}

#[test]
fn test_mixed_chat_model_layout_uses_current_keys_only() {
    // A current key is present, so `[default_chat_model]` is not read.
    let zc = parse("default_provider = \"gemini\"\n[default_chat_model]\napi_key = \"k\"\nmodel = \"m\"\n");
    let mut config = Config::default();
    let r = convert_zeroclaw_config(&zc, &mut config);
    assert!(config.providers.gemini.is_none());
    assert_eq!(config.agents.defaults.model, "");
    assert!(r.migrated.is_empty());
}

#[test]
fn test_mixed_discord_layout_uses_current_keys_only() {
    let zc = parse("[channels_config.discord]\nbot_token = \"t\"\n[discord]\nallowed_users = [\"9\"]\n");
    let mut config = Config::default();
    let r = convert_zeroclaw_config(&zc, &mut config);
    let dc = config.channels.discord.unwrap();
    assert_eq!(dc.token, "t");
    assert!(dc.allow_from.is_empty());
    assert_eq!(r.migrated, vec!["channels_config.discord.bot_token"]);
}
