//! ZeroClaw → Claide migration: conversion of a ZeroClaw TOML configuration
//! into Claide's configuration, with a report of what was migrated, skipped,
//! not portable, or needs review.

use vstd::prelude::*;
use vstd::string::*;
use crate::text::{
    owned, join2, join3, replace_all, replaced, u64_to_decimal, decimal, occurs_in,
    lemma_replaced_leaves_no_occurrence, lemma_replaced_without_occurrence,
};
use crate::toml_model::{
    TomlNode, TomlValue, str_at, bool_at, int_at, float_at, strings_at, node_at, node_get,
    texts, toml_str, toml_bool, toml_u64, toml_float_bits, toml_array_strings, toml_pointer,
    toml_get,
};
use crate::config::{
    Config, ConfigView, DiscordConfig, DiscordView, ProviderView, default_discord_view,
    opt_discord_view, provider_slot, get_provider_mut, ProviderSlot,
};

verus! {

// ---------------------------------------------------------------------------
// The report
// ---------------------------------------------------------------------------

/// Result of ZeroClaw config conversion.
pub struct ZeroClawConfigResult {
    pub migrated: Vec<String>,
    pub skipped: Vec<(String, String)>,
    pub not_portable: Vec<String>,
    pub warnings: Vec<String>,
}

/// The report in mathematical form.
#[verifier::ext_equal]
pub struct ReportView {
    pub migrated: Seq<Seq<char>>,
    pub skipped: Seq<(Seq<char>, Seq<char>)>,
    pub not_portable: Seq<Seq<char>>,
    pub warnings: Seq<Seq<char>>,
}

pub open spec fn text_pairs(v: Seq<(String, String)>) -> Seq<(Seq<char>, Seq<char>)> {
    v.map_values(|p: (String, String)| (p.0@, p.1@))
}

impl View for ZeroClawConfigResult {
    type V = ReportView;

    open spec fn view(&self) -> ReportView {
        ReportView {
            migrated: texts(self.migrated@),
            skipped: text_pairs(self.skipped@),
            not_portable: texts(self.not_portable@),
            warnings: texts(self.warnings@),
        }
    }
}

impl ReportView {
    /// The report with `next`'s entries after its own, list by list.
    pub open spec fn followed_by(self, next: ReportView) -> ReportView {
        ReportView {
            migrated: self.migrated + next.migrated,
            skipped: self.skipped + next.skipped,
            not_portable: self.not_portable + next.not_portable,
            warnings: self.warnings + next.warnings,
        }
    }
}

pub open spec fn empty_report() -> ReportView {
    ReportView {
        migrated: Seq::empty(),
        skipped: Seq::empty(),
        not_portable: Seq::empty(),
        warnings: Seq::empty(),
    }
}

/// The one-element sequence `x` where `cond` holds, the empty one otherwise.
pub open spec fn one_if<A>(cond: bool, x: A) -> Seq<A> {
    if cond { seq![x] } else { Seq::empty() }
}

/// `legacy` where the older layout is in use, `current` otherwise.
pub open spec fn layout_pick<A>(older: bool, current: Option<A>, legacy: Option<A>) -> Option<A> {
    if older { legacy } else { current }
}

fn push_text(v: &mut Vec<String>, s: String)
    ensures
        texts(final(v)@) == texts(old(v)@).push(s@),
{
    v.push(s);
    assert(texts(v@) =~= texts(old(v)@).push(s@));
}

fn push_pair(v: &mut Vec<(String, String)>, a: String, b: String)
    ensures
        text_pairs(final(v)@) == text_pairs(old(v)@).push((a@, b@)),
{
    v.push((a, b));
    assert(text_pairs(v@) =~= text_pairs(old(v)@).push((a@, b@)));
}

// ---------------------------------------------------------------------------
// What the ZeroClaw document holds
// ---------------------------------------------------------------------------

/// The older layout of the provider settings, a `[default_chat_model]`
/// table, is read only where none of the current keys `default_provider`,
/// `api_key` and `default_model` is present.
pub open spec fn chat_model_layout_older(zc: TomlNode) -> bool {
    &&& node_at(zc, seq!["default_provider"@]) is None
    &&& node_at(zc, seq!["api_key"@]) is None
    &&& node_at(zc, seq!["default_model"@]) is None
}

/// The default provider: `default_provider`, or `default_chat_model.provider`
/// in the older layout.
pub open spec fn zc_provider(zc: TomlNode) -> Option<Seq<char>> {
    layout_pick(
        chat_model_layout_older(zc),
        str_at(zc, seq!["default_provider"@]),
        str_at(zc, seq!["default_chat_model"@, "provider"@]),
    )
}

/// The API key: `api_key`, or `default_chat_model.api_key` in the older layout.
pub open spec fn zc_api_key(zc: TomlNode) -> Option<Seq<char>> {
    layout_pick(
        chat_model_layout_older(zc),
        str_at(zc, seq!["api_key"@]),
        str_at(zc, seq!["default_chat_model"@, "api_key"@]),
    )
}

/// The default model: `default_model`, or `default_chat_model.model` in the older layout.
pub open spec fn zc_model(zc: TomlNode) -> Option<Seq<char>> {
    layout_pick(
        chat_model_layout_older(zc),
        str_at(zc, seq!["default_model"@]),
        str_at(zc, seq!["default_chat_model"@, "model"@]),
    )
}

pub open spec fn zc_temperature(zc: TomlNode) -> Option<u64> {
    float_at(zc, seq!["default_temperature"@])
}

pub open spec fn zc_workspace(zc: TomlNode) -> Option<Seq<char>> {
    str_at(zc, seq!["workspace"@])
}

/// The older layout of the Discord settings, a top-level `[discord]` table,
/// is read only where neither `channels_config.discord.bot_token` nor
/// `channels_config.discord.allowed_users` is present.
pub open spec fn discord_layout_older(zc: TomlNode) -> bool {
    &&& node_at(zc, seq!["channels_config"@, "discord"@, "bot_token"@]) is None
    &&& node_at(zc, seq!["channels_config"@, "discord"@, "allowed_users"@]) is None
}

/// The Discord bot token: `channels_config.discord.bot_token`, or
/// `discord.bot_token` in the older layout.
pub open spec fn zc_discord_token(zc: TomlNode) -> Option<Seq<char>> {
    layout_pick(
        discord_layout_older(zc),
        str_at(zc, seq!["channels_config"@, "discord"@, "bot_token"@]),
        str_at(zc, seq!["discord"@, "bot_token"@]),
    )
}

/// The Discord users: `channels_config.discord.allowed_users`, or
/// `discord.allowed_users` in the older layout.
pub open spec fn zc_discord_users(zc: TomlNode) -> Option<Seq<Seq<char>>> {
    layout_pick(
        discord_layout_older(zc),
        strings_at(zc, seq!["channels_config"@, "discord"@, "allowed_users"@]),
        strings_at(zc, seq!["discord"@, "allowed_users"@]),
    )
}

// ---------------------------------------------------------------------------
// The conversion, section by section
// ---------------------------------------------------------------------------

/// Provider section: the API key goes to the named provider, the model and
/// the temperature to the agent defaults (all only when a provider is named).
pub open spec fn apply_provider(zc: TomlNode, c: ConfigView) -> ConfigView {
    match zc_provider(zc) {
        None => c,
        Some(p) => {
            let c1 = match (zc_api_key(zc), provider_slot(p)) {
                (Some(k), Some(s)) => ConfigView {
                    providers: c.providers.with_slot(
                        s,
                        Some(ProviderView { api_key: Some(k), ..c.providers.slot_or_default(s) }),
                    ),
                    ..c
                },
                _ => c,
            };
            let c2 = match zc_model(zc) {
                Some(m) => ConfigView { model: m, ..c1 },
                None => c1,
            };
            match zc_temperature(zc) {
                Some(t) => ConfigView { temperature_bits: t, ..c2 },
                None => c2,
            }
        },
    }
}

pub open spec fn report_provider(zc: TomlNode) -> ReportView {
    match zc_provider(zc) {
        None => empty_report(),
        Some(p) => ReportView {
            migrated: one_if(
                zc_api_key(zc) is Some && provider_slot(p) is Some,
                "default_provider ("@ + p + ")"@,
            ) + one_if(zc_model(zc) is Some, "default_model"@) + one_if(
                zc_temperature(zc) is Some,
                "default_temperature"@,
            ),
            skipped: one_if(
                zc_api_key(zc) is Some && provider_slot(p) is None,
                ("default_provider: "@ + p, "Unknown provider"@),
            ),
            not_portable: Seq::empty(),
            warnings: Seq::empty(),
        },
    }
}

/// Workspace section: the path, with `.zeroclaw` rewritten to `.claide`.
pub open spec fn apply_workspace(zc: TomlNode, c: ConfigView) -> ConfigView {
    match zc_workspace(zc) {
        Some(w) => ConfigView { workspace: replaced(w, ".zeroclaw"@, ".claide"@), ..c },
        None => c,
    }
}

pub open spec fn report_workspace(zc: TomlNode) -> ReportView {
    ReportView { migrated: one_if(zc_workspace(zc) is Some, "workspace"@), ..empty_report() }
}

/// Discord section: with a bot token, the channel is enabled with that token
/// (created with defaults if needed) and takes the allowed users if given.
pub open spec fn apply_discord(zc: TomlNode, c: ConfigView) -> ConfigView {
    match zc_discord_token(zc) {
        None => c,
        Some(t) => {
            let base = match c.discord {
                Some(d) => d,
                None => default_discord_view(),
            };
            let d1 = DiscordView { token: t, enabled: true, ..base };
            let d2 = match zc_discord_users(zc) {
                Some(u) => DiscordView { allow_from: u, ..d1 },
                None => d1,
            };
            ConfigView { discord: Some(d2), ..c }
        },
    }
}

pub open spec fn report_discord(zc: TomlNode) -> ReportView {
    ReportView {
        migrated: one_if(zc_discord_token(zc) is Some, "channels_config.discord.bot_token"@)
            + one_if(
            zc_discord_token(zc) is Some && zc_discord_users(zc) is Some,
            "channels_config.discord.allowed_users"@,
        ),
        ..empty_report()
    }
}

/// Agent section: `agent.compact_context` switches compaction.
pub open spec fn apply_agent(zc: TomlNode, c: ConfigView) -> ConfigView {
    match bool_at(zc, seq!["agent"@, "compact_context"@]) {
        Some(b) => ConfigView { compaction_enabled: b, ..c },
        None => c,
    }
}

pub open spec fn max_history_warning(n: u64) -> Seq<char> {
    "max_history_messages="@ + decimal(n as nat)
        + " — Claide uses compaction tiers instead. Set compaction.context_limit for similar behavior."@
}

pub open spec fn report_agent(zc: TomlNode) -> ReportView {
    let hist = int_at(zc, seq!["agent"@, "max_history_messages"@]);
    ReportView {
        migrated: one_if(bool_at(zc, seq!["agent"@, "compact_context"@]) is Some, "agent.compact_context"@),
        skipped: one_if(
            hist is Some,
            ("max_history_messages"@, "Claide uses compaction tiers"@),
        ),
        not_portable: Seq::empty(),
        warnings: one_if(hist is Some, max_history_warning((hist->0) as u64)),
    }
}

/// Transcription section: `enabled` and `model` are taken over.
pub open spec fn apply_transcription(zc: TomlNode, c: ConfigView) -> ConfigView {
    let c1 = match bool_at(zc, seq!["transcription"@, "enabled"@]) {
        Some(b) => ConfigView { transcription_enabled: b, ..c },
        None => c,
    };
    match str_at(zc, seq!["transcription"@, "model"@]) {
        Some(m) => ConfigView { transcription_model: m, ..c1 },
        None => c1,
    }
}

pub open spec fn api_url_warning(url: Seq<char>) -> Seq<char> {
    "transcription.api_url="@ + url
        + " — Claide routes transcription through configured providers. Ensure the provider with transcription support is configured."@
}

pub open spec fn report_transcription(zc: TomlNode) -> ReportView {
    let url = str_at(zc, seq!["transcription"@, "api_url"@]);
    ReportView {
        migrated: one_if(bool_at(zc, seq!["transcription"@, "enabled"@]) is Some, "transcription.enabled"@)
            + one_if(str_at(zc, seq!["transcription"@, "model"@]) is Some, "transcription.model"@),
        warnings: one_if(url is Some, api_url_warning(url->0)),
        ..empty_report()
    }
}

/// Cost section: `cost.enabled` is taken over.
pub open spec fn apply_cost(zc: TomlNode, c: ConfigView) -> ConfigView {
    match bool_at(zc, seq!["cost"@, "enabled"@]) {
        Some(b) => ConfigView { cost_enabled: b, ..c },
        None => c,
    }
}

pub open spec fn report_cost(zc: TomlNode) -> ReportView {
    ReportView {
        migrated: one_if(bool_at(zc, seq!["cost"@, "enabled"@]) is Some, "cost.enabled"@),
        warnings: one_if(
            node_at(zc, seq!["cost"@, "daily_limit_usd"@]) is Some,
            "cost.daily_limit_usd — Claide does not have per-day cost limits. Use provider-level rate limits instead."@,
        ),
        ..empty_report()
    }
}

/// Autonomy section: reported only; nothing of it changes the configuration.
pub open spec fn report_autonomy(zc: TomlNode) -> ReportView {
    let cmds = strings_at(zc, seq!["autonomy"@, "allowed_commands"@]);
    let has_cmds = cmds is Some && cmds->0.len() > 0;
    let ws_only = bool_at(zc, seq!["autonomy"@, "workspace_only"@]);
    ReportView {
        migrated: one_if(
            has_cmds,
            "autonomy.allowed_commands ("@ + decimal(cmds->0.len()) + " commands)"@,
        ),
        skipped: one_if(
            ws_only is Some,
            ("shell.workspace_only"@, "Claide uses different shell security model"@),
        ),
        not_portable: one_if(
            strings_at(zc, seq!["autonomy"@, "auto_approve"@]) is Some,
            "auto_approve — Claide uses approval gate config instead. For async channels, tools are auto-approved by default."@,
        ),
        warnings: one_if(
            has_cmds,
            "autonomy.allowed_commands migrated — review Claide's approval gate config for equivalent security policy."@,
        ) + one_if(
            ws_only == Some(false),
            "shell.workspace_only=false was set in ZeroClaw. Claide defaults to workspace-only shell access — review security.shell config if scripts need access outside workspace."@,
        ),
    }
}

/// Heartbeat, cron and runtime trace: reported only.
pub open spec fn report_other(zc: TomlNode) -> ReportView {
    ReportView {
        migrated: Seq::empty(),
        skipped: one_if(
            str_at(zc, seq!["runtime_trace_mode"@]) is Some,
            ("runtime_trace_mode"@, "Claide uses audit trail instead"@),
        ),
        not_portable: one_if(
            bool_at(zc, seq!["heartbeat"@, "enabled"@]) is Some,
            "heartbeat — Claide uses health endpoint + Prometheus metrics instead."@,
        ),
        warnings: one_if(
            node_get(zc, "cron"@) is Some,
            "ZeroClaw cron config found. Claide has its own cron system — review and migrate cron jobs manually."@,
        ),
    }
}

/// The configuration after the migration of `zc` into `c`.
pub open spec fn zeroclaw_applied(zc: TomlNode, c: ConfigView) -> ConfigView {
    apply_cost(
        zc,
        apply_transcription(
            zc,
            apply_agent(zc, apply_discord(zc, apply_workspace(zc, apply_provider(zc, c)))),
        ),
    )
}

/// The report of the migration of `zc` (it does not depend on the
/// configuration migrated into).
pub open spec fn zeroclaw_report(zc: TomlNode) -> ReportView {
    report_provider(zc).followed_by(report_workspace(zc)).followed_by(report_discord(zc)).followed_by(
        report_agent(zc),
    ).followed_by(report_transcription(zc)).followed_by(report_cost(zc)).followed_by(report_autonomy(zc)).followed_by(
        report_other(zc),
    )
}

// ---------------------------------------------------------------------------
// The conversion, executed
// ---------------------------------------------------------------------------

fn pick_str<'a>(zc: &'a TomlValue, older: bool, current: &[&str], legacy: &[&str]) -> (r: Option<&'a str>)
    ensures
        crate::toml_model::opt_text(r) == layout_pick(
            older,
            str_at(zc@, crate::toml_model::path_of(current@)),
            str_at(zc@, crate::toml_model::path_of(legacy@)),
        ),
{
    if older {
        toml_str(zc, legacy)
    } else {
        toml_str(zc, current)
    }
}

fn chat_model_older(zc: &TomlValue) -> (r: bool)
    ensures
        r == chat_model_layout_older(zc@),
{
    let p = ["default_provider"];
    let k = ["api_key"];
    let m = ["default_model"];
    assert(crate::toml_model::path_of(p@) =~= seq!["default_provider"@]);
    assert(crate::toml_model::path_of(k@) =~= seq!["api_key"@]);
    assert(crate::toml_model::path_of(m@) =~= seq!["default_model"@]);
    toml_pointer(zc, &p).is_none() && toml_pointer(zc, &k).is_none() && toml_pointer(zc, &m).is_none()
}

fn discord_older(zc: &TomlValue) -> (r: bool)
    ensures
        r == discord_layout_older(zc@),
{
    let t = ["channels_config", "discord", "bot_token"];
    let u = ["channels_config", "discord", "allowed_users"];
    assert(crate::toml_model::path_of(t@) =~= seq!["channels_config"@, "discord"@, "bot_token"@]);
    assert(crate::toml_model::path_of(u@) =~= seq!["channels_config"@, "discord"@, "allowed_users"@]);
    toml_pointer(zc, &t).is_none() && toml_pointer(zc, &u).is_none()
}

fn migrate_provider(zc: &TomlValue, existing: &mut Config, out: &mut ZeroClawConfigResult)
    ensures
        final(existing)@ == apply_provider(zc@, old(existing)@),
        final(out)@ == old(out)@.followed_by(report_provider(zc@)),
{
    let ghost c0 = existing@;
    let k1 = ["default_provider"];
    let k2 = ["default_chat_model", "provider"];
    assert(crate::toml_model::path_of(k1@) =~= seq!["default_provider"@]);
    assert(crate::toml_model::path_of(k2@) =~= seq!["default_chat_model"@, "provider"@]);
    let older = chat_model_older(zc);
    if let Some(provider) = pick_str(zc, older, &k1, &k2) {
        let a1 = ["api_key"];
        let a2 = ["default_chat_model", "api_key"];
        assert(crate::toml_model::path_of(a1@) =~= seq!["api_key"@]);
        assert(crate::toml_model::path_of(a2@) =~= seq!["default_chat_model"@, "api_key"@]);
        if let Some(api_key) = pick_str(zc, older, &a1, &a2) {
            match get_provider_mut(&mut existing.providers, provider) {
                Some(pc) => {
                    pc.api_key = Some(owned(api_key));
                    push_text(&mut out.migrated, join3("default_provider (", provider, ")"));
                },
                None => {
                    push_pair(
                        &mut out.skipped,
                        join2("default_provider: ", provider),
                        owned("Unknown provider"),
                    );
                },
            }
        }
        let ghost c1 = existing@;
        let m1 = ["default_model"];
        let m2 = ["default_chat_model", "model"];
        assert(crate::toml_model::path_of(m1@) =~= seq!["default_model"@]);
        assert(crate::toml_model::path_of(m2@) =~= seq!["default_chat_model"@, "model"@]);
        if let Some(model) = pick_str(zc, older, &m1, &m2) {
            existing.agents.defaults.model = owned(model);
            push_text(&mut out.migrated, owned("default_model"));
        }
        let t1 = ["default_temperature"];
        assert(crate::toml_model::path_of(t1@) =~= seq!["default_temperature"@]);
        if let Some(temp) = toml_float_bits(zc, &t1) {
            existing.agents.defaults.temperature_bits = temp;
            push_text(&mut out.migrated, owned("default_temperature"));
        }
    }
    assert(out@ =~= old(out)@.followed_by(report_provider(zc@)));
}

fn migrate_workspace(zc: &TomlValue, existing: &mut Config, out: &mut ZeroClawConfigResult)
    ensures
        final(existing)@ == apply_workspace(zc@, old(existing)@),
        final(out)@ == old(out)@.followed_by(report_workspace(zc@)),
{
    let k = ["workspace"];
    assert(crate::toml_model::path_of(k@) =~= seq!["workspace"@]);
    if let Some(workspace) = toml_str(zc, &k) {
        // Rewrite ~/.zeroclaw/ paths to ~/.claide/
        existing.agents.defaults.workspace = replace_all(workspace, ".zeroclaw", ".claide");
        push_text(&mut out.migrated, owned("workspace"));
    }
    assert(out@ =~= old(out)@.followed_by(report_workspace(zc@)));
}

fn discord_entry(entry: &mut Option<DiscordConfig>) -> (r: &mut DiscordConfig)
    ensures
        r@ == (match opt_discord_view(*old(entry)) { Some(d) => d, None => default_discord_view() }),
        *final(entry) == Some(*final(r)),
{
    if entry.is_none() {
        *entry = Some(DiscordConfig::default());
    }
    match entry {
        Some(d) => d,
        None => unreached(),
    }
}

fn migrate_discord(zc: &TomlValue, existing: &mut Config, out: &mut ZeroClawConfigResult)
    ensures
        final(existing)@ == apply_discord(zc@, old(existing)@),
        final(out)@ == old(out)@.followed_by(report_discord(zc@)),
{
    let t1 = ["channels_config", "discord", "bot_token"];
    let t2 = ["discord", "bot_token"];
    assert(crate::toml_model::path_of(t1@) =~= seq!["channels_config"@, "discord"@, "bot_token"@]);
    assert(crate::toml_model::path_of(t2@) =~= seq!["discord"@, "bot_token"@]);
    let older = discord_older(zc);
    if let Some(token) = pick_str(zc, older, &t1, &t2) {
        let u1 = ["channels_config", "discord", "allowed_users"];
        let u2 = ["discord", "allowed_users"];
        assert(crate::toml_model::path_of(u1@) =~= seq!["channels_config"@, "discord"@, "allowed_users"@]);
        assert(crate::toml_model::path_of(u2@) =~= seq!["discord"@, "allowed_users"@]);
        let users = if older {
            toml_array_strings(zc, &u2)
        } else {
            toml_array_strings(zc, &u1)
        };
        let dc = discord_entry(&mut existing.channels.discord);
        dc.token = owned(token);
        dc.enabled = true;
        push_text(&mut out.migrated, owned("channels_config.discord.bot_token"));
        if let Some(users) = users {
            dc.allow_from = users;
            push_text(&mut out.migrated, owned("channels_config.discord.allowed_users"));
        }
    }
    assert(out@ =~= old(out)@.followed_by(report_discord(zc@)));
}

fn migrate_agent(zc: &TomlValue, existing: &mut Config, out: &mut ZeroClawConfigResult)
    ensures
        final(existing)@ == apply_agent(zc@, old(existing)@),
        final(out)@ == old(out)@.followed_by(report_agent(zc@)),
{
    let c = ["agent", "compact_context"];
    assert(crate::toml_model::path_of(c@) =~= seq!["agent"@, "compact_context"@]);
    if let Some(compact) = toml_bool(zc, &c) {
        existing.compaction.enabled = compact;
        push_text(&mut out.migrated, owned("agent.compact_context"));
    }
    let h = ["agent", "max_history_messages"];
    assert(crate::toml_model::path_of(h@) =~= seq!["agent"@, "max_history_messages"@]);
    if let Some(max_hist) = toml_u64(zc, &h) {
        // ZeroClaw limits the conversation history with it; Claide compacts instead.
        push_text(
            &mut out.warnings,
            join3(
                "max_history_messages=",
                u64_to_decimal(max_hist).as_str(),
                " — Claide uses compaction tiers instead. Set compaction.context_limit for similar behavior.",
            ),
        );
        push_pair(
            &mut out.skipped,
            owned("max_history_messages"),
            owned("Claide uses compaction tiers"),
        );
    }
    assert(out@ =~= old(out)@.followed_by(report_agent(zc@)));
}

fn migrate_transcription(zc: &TomlValue, existing: &mut Config, out: &mut ZeroClawConfigResult)
    ensures
        final(existing)@ == apply_transcription(zc@, old(existing)@),
        final(out)@ == old(out)@.followed_by(report_transcription(zc@)),
{
    let e = ["transcription", "enabled"];
    assert(crate::toml_model::path_of(e@) =~= seq!["transcription"@, "enabled"@]);
    if let Some(enabled) = toml_bool(zc, &e) {
        existing.transcription.enabled = enabled;
        push_text(&mut out.migrated, owned("transcription.enabled"));
    }
    let m = ["transcription", "model"];
    assert(crate::toml_model::path_of(m@) =~= seq!["transcription"@, "model"@]);
    if let Some(model) = toml_str(zc, &m) {
        existing.transcription.model = owned(model);
        push_text(&mut out.migrated, owned("transcription.model"));
    }
    let u = ["transcription", "api_url"];
    assert(crate::toml_model::path_of(u@) =~= seq!["transcription"@, "api_url"@]);
    if let Some(api_url) = toml_str(zc, &u) {
        push_text(
            &mut out.warnings,
            join3(
                "transcription.api_url=",
                api_url,
                " — Claide routes transcription through configured providers. Ensure the provider with transcription support is configured.",
            ),
        );
    }
    assert(out@ =~= old(out)@.followed_by(report_transcription(zc@)));
}

fn migrate_cost(zc: &TomlValue, existing: &mut Config, out: &mut ZeroClawConfigResult)
    ensures
        final(existing)@ == apply_cost(zc@, old(existing)@),
        final(out)@ == old(out)@.followed_by(report_cost(zc@)),
{
    let e = ["cost", "enabled"];
    assert(crate::toml_model::path_of(e@) =~= seq!["cost"@, "enabled"@]);
    if let Some(enabled) = toml_bool(zc, &e) {
        existing.cost.enabled = enabled;
        push_text(&mut out.migrated, owned("cost.enabled"));
    }
    let d = ["cost", "daily_limit_usd"];
    assert(crate::toml_model::path_of(d@) =~= seq!["cost"@, "daily_limit_usd"@]);
    if toml_pointer(zc, &d).is_some() {
        push_text(
            &mut out.warnings,
            owned(
                "cost.daily_limit_usd — Claide does not have per-day cost limits. Use provider-level rate limits instead.",
            ),
        );
    }
    assert(out@ =~= old(out)@.followed_by(report_cost(zc@)));
}

fn report_autonomy_settings(zc: &TomlValue, out: &mut ZeroClawConfigResult)
    ensures
        final(out)@ == old(out)@.followed_by(report_autonomy(zc@)),
{
    let c = ["autonomy", "allowed_commands"];
    assert(crate::toml_model::path_of(c@) =~= seq!["autonomy"@, "allowed_commands"@]);
    if let Some(commands) = toml_array_strings(zc, &c) {
        if commands.len() > 0 {
            push_text(
                &mut out.migrated,
                join3(
                    "autonomy.allowed_commands (",
                    u64_to_decimal(commands.len() as u64).as_str(),
                    " commands)",
                ),
            );
            push_text(
                &mut out.warnings,
                owned(
                    "autonomy.allowed_commands migrated — review Claide's approval gate config for equivalent security policy.",
                ),
            );
        }
    }
    // ZeroClaw's workspace_only = false is critical: Claide's shell is workspace-only.
    let w = ["autonomy", "workspace_only"];
    assert(crate::toml_model::path_of(w@) =~= seq!["autonomy"@, "workspace_only"@]);
    if let Some(ws_only) = toml_bool(zc, &w) {
        if !ws_only {
            push_text(
                &mut out.warnings,
                owned(
                    "shell.workspace_only=false was set in ZeroClaw. Claide defaults to workspace-only shell access — review security.shell config if scripts need access outside workspace.",
                ),
            );
        }
        push_pair(
            &mut out.skipped,
            owned("shell.workspace_only"),
            owned("Claide uses different shell security model"),
        );
    }
    let a = ["autonomy", "auto_approve"];
    assert(crate::toml_model::path_of(a@) =~= seq!["autonomy"@, "auto_approve"@]);
    if toml_array_strings(zc, &a).is_some() {
        push_text(
            &mut out.not_portable,
            owned(
                "auto_approve — Claide uses approval gate config instead. For async channels, tools are auto-approved by default.",
            ),
        );
    }
    assert(out@ =~= old(out)@.followed_by(report_autonomy(zc@)));
}

fn report_other_settings(zc: &TomlValue, out: &mut ZeroClawConfigResult)
    ensures
        final(out)@ == old(out)@.followed_by(report_other(zc@)),
{
    let h = ["heartbeat", "enabled"];
    assert(crate::toml_model::path_of(h@) =~= seq!["heartbeat"@, "enabled"@]);
    if toml_bool(zc, &h).is_some() {
        push_text(
            &mut out.not_portable,
            owned("heartbeat — Claide uses health endpoint + Prometheus metrics instead."),
        );
    }
    if toml_get(zc, "cron").is_some() {
        push_text(
            &mut out.warnings,
            owned(
                "ZeroClaw cron config found. Claide has its own cron system — review and migrate cron jobs manually.",
            ),
        );
    }
    let r = ["runtime_trace_mode"];
    assert(crate::toml_model::path_of(r@) =~= seq!["runtime_trace_mode"@]);
    if toml_str(zc, &r).is_some() {
        push_pair(
            &mut out.skipped,
            owned("runtime_trace_mode"),
            owned("Claide uses audit trail instead"),
        );
    }
    assert(out@ =~= old(out)@.followed_by(report_other(zc@)));
}

/// Convert a ZeroClaw TOML config into a Claide `Config`, merging into `existing`.
///
/// Besides ZeroClaw's current layout (`default_provider`, `api_key`,
/// `default_model`, `[channels_config.discord]`), the older layout with a
/// `[default_chat_model]` table and a top-level `[discord]` table is read,
/// section by section, where none of that section's current keys is present
/// (`chat_model_layout_older`, `discord_layout_older`).
pub fn convert_zeroclaw_config(zc: &TomlValue, existing: &mut Config) -> (r: ZeroClawConfigResult)
    ensures
        final(existing)@ == zeroclaw_applied(zc@, old(existing)@),
        r@ == zeroclaw_report(zc@),
{
    let mut out = ZeroClawConfigResult {
        migrated: Vec::new(),
        skipped: Vec::new(),
        not_portable: Vec::new(),
        warnings: Vec::new(),
    };
    assert(out@ =~= empty_report());
    migrate_provider(zc, existing, &mut out);
    migrate_workspace(zc, existing, &mut out);
    migrate_discord(zc, existing, &mut out);
    migrate_agent(zc, existing, &mut out);
    migrate_transcription(zc, existing, &mut out);
    migrate_cost(zc, existing, &mut out);
    report_autonomy_settings(zc, &mut out);
    report_other_settings(zc, &mut out);
    assert(out@ =~= zeroclaw_report(zc@));
    out
}

// ---------------------------------------------------------------------------
// Laws of the conversion
// ---------------------------------------------------------------------------

proof fn lemma_provider_stable(zc: TomlNode, x: ConfigView, y: ConfigView)
    requires
        y.providers == apply_provider(zc, x).providers,
        y.model == apply_provider(zc, x).model,
        y.temperature_bits == apply_provider(zc, x).temperature_bits,
    ensures
        apply_provider(zc, y) == y,
{
    let r = apply_provider(zc, y);
    if let Some(p) = zc_provider(zc) {
        if let (Some(k), Some(s)) = (zc_api_key(zc), provider_slot(p)) {
            assert(r.providers =~= y.providers);
        }
    }
    assert(r =~= y);
}

proof fn lemma_discord_stable(zc: TomlNode, x: ConfigView, y: ConfigView)
    requires
        y.discord == apply_discord(zc, x).discord,
    ensures
        apply_discord(zc, y) == y,
{
    let r = apply_discord(zc, y);
    if let Some(t) = zc_discord_token(zc) {
        assert(r.discord->0 =~= y.discord->0);
    }
    assert(r =~= y);
}

/// Migrating the same ZeroClaw document a second time changes nothing more:
/// every setting it touches is set from the document alone.
pub proof fn lemma_conversion_idempotent(zc: TomlNode, c: ConfigView)
    ensures
        zeroclaw_applied(zc, zeroclaw_applied(zc, c)) == zeroclaw_applied(zc, c),
{
    let c1 = apply_provider(zc, c);
    let c2 = apply_workspace(zc, c1);
    let c3 = apply_discord(zc, c2);
    let c4 = apply_agent(zc, c3);
    let c5 = apply_transcription(zc, c4);
    let once = apply_cost(zc, c5);
    assert(once == zeroclaw_applied(zc, c));
    lemma_provider_stable(zc, c, once);
    let d1 = apply_provider(zc, once);
    assert(d1 == once);
    assert(apply_workspace(zc, once) =~= once);
    lemma_discord_stable(zc, c2, once);
    assert(apply_agent(zc, once) =~= once);
    assert(apply_transcription(zc, once) =~= once);
    assert(apply_cost(zc, once) =~= once);
}

/// An empty ZeroClaw document migrates nothing and leaves the configuration as it was.
pub proof fn lemma_empty_document(c: ConfigView)
    ensures
        zeroclaw_applied(TomlNode::Table(Seq::empty()), c) == c,
        zeroclaw_report(TomlNode::Table(Seq::empty())) == empty_report(),
{
    let zc = TomlNode::Table(Seq::empty());
    assert forall|k: Seq<char>| node_get(zc, k) is None by {
        assert(!exists|i: int| crate::toml_model::is_first_key(Seq::<(Seq<char>, TomlNode)>::empty(), k, i));
    }
    assert(zeroclaw_report(zc) =~= empty_report());
}

/// A migrated Discord bot token always leaves the channel enabled with that token.
pub proof fn lemma_discord_token_enables_channel(zc: TomlNode, c: ConfigView)
    requires
        zc_discord_token(zc) is Some,
    ensures
        zeroclaw_applied(zc, c).discord is Some,
        zeroclaw_applied(zc, c).discord->0.enabled,
        zeroclaw_applied(zc, c).discord->0.token == zc_discord_token(zc)->0,
{
}

/// Only the provider that the document names has its entry changed: every
/// other entry stays as it was, and an unknown name changes none.
pub proof fn lemma_other_providers_untouched(zc: TomlNode, c: ConfigView, s: crate::config::ProviderSlot)
    requires
        zc_provider(zc) is None || provider_slot(zc_provider(zc)->0) != Some(s),
    ensures
        zeroclaw_applied(zc, c).providers.slot(s) == c.providers.slot(s),
{
    let c1 = apply_provider(zc, c);
    assert(zeroclaw_applied(zc, c).providers == c1.providers);
    if let Some(p) = zc_provider(zc) {
        if let (Some(k), Some(t)) = (zc_api_key(zc), provider_slot(p)) {
            assert(t != s);
            assert(c1.providers.slot(s) == c.providers.slot(s));
        }
    }
}

/// A migrated workspace path holds no `.zeroclaw` any more: every
/// occurrence is rewritten to `.claide`, and no rewrite makes a new one.
pub proof fn lemma_workspace_rewrite_complete(zc: TomlNode, c: ConfigView)
    requires
        zc_workspace(zc) is Some,
    ensures
        !occurs_in(".zeroclaw"@, zeroclaw_applied(zc, c).workspace),
{
    reveal_strlit(".zeroclaw");
    reveal_strlit(".claide");
    lemma_replaced_leaves_no_occurrence(zc_workspace(zc)->0, ".zeroclaw"@, ".claide"@);
    assert(zeroclaw_applied(zc, c).workspace == replaced(zc_workspace(zc)->0, ".zeroclaw"@, ".claide"@));
}

/// `agent.compact_context` decides compaction: after the migration it is on
/// exactly when the document says `true` there, whatever it was before; a
/// document without a boolean there leaves it as it was.
pub proof fn lemma_compact_context_sets_compaction(zc: TomlNode, c: ConfigView)
    ensures
        bool_at(zc, seq!["agent"@, "compact_context"@]) matches Some(b)
            ==> zeroclaw_applied(zc, c).compaction_enabled == b,
        bool_at(zc, seq!["agent"@, "compact_context"@]) is None
            ==> zeroclaw_applied(zc, c).compaction_enabled == c.compaction_enabled,
{
}

/// `transcription.enabled` and `transcription.model` are taken over as they
/// are; where absent, the settings stay.
pub proof fn lemma_transcription_taken_over(zc: TomlNode, c: ConfigView)
    ensures
        bool_at(zc, seq!["transcription"@, "enabled"@]) matches Some(b)
            ==> zeroclaw_applied(zc, c).transcription_enabled == b,
        bool_at(zc, seq!["transcription"@, "enabled"@]) is None
            ==> zeroclaw_applied(zc, c).transcription_enabled == c.transcription_enabled,
        str_at(zc, seq!["transcription"@, "model"@]) matches Some(m)
            ==> zeroclaw_applied(zc, c).transcription_model == m,
        str_at(zc, seq!["transcription"@, "model"@]) is None
            ==> zeroclaw_applied(zc, c).transcription_model == c.transcription_model,
{
}

/// `cost.enabled` is taken over as it is; where absent, the setting stays.
pub proof fn lemma_cost_taken_over(zc: TomlNode, c: ConfigView)
    ensures
        bool_at(zc, seq!["cost"@, "enabled"@]) matches Some(b) ==> zeroclaw_applied(zc, c).cost_enabled == b,
        bool_at(zc, seq!["cost"@, "enabled"@]) is None ==> zeroclaw_applied(zc, c).cost_enabled == c.cost_enabled,
{
}

/// The workspace path: one that mentions no `.zeroclaw` is taken over as it
/// is; without a path in the document the workspace stays.
pub proof fn lemma_workspace_taken_over(zc: TomlNode, c: ConfigView)
    ensures
        zc_workspace(zc) is Some && !occurs_in(".zeroclaw"@, zc_workspace(zc)->0)
            ==> zeroclaw_applied(zc, c).workspace == zc_workspace(zc)->0,
        zc_workspace(zc) is None ==> zeroclaw_applied(zc, c).workspace == c.workspace,
{
    if let Some(w) = zc_workspace(zc) {
        if !occurs_in(".zeroclaw"@, w) {
            reveal_strlit(".zeroclaw");
            lemma_replaced_without_occurrence(w, ".zeroclaw"@, ".claide"@);
        }
    }
}

/// The model and the temperature are taken over where a provider is named,
/// and only then.
pub proof fn lemma_model_and_temperature(zc: TomlNode, c: ConfigView)
    ensures
        zc_provider(zc) is Some && zc_model(zc) is Some ==> zeroclaw_applied(zc, c).model == zc_model(zc)->0,
        zc_provider(zc) is Some && zc_temperature(zc) is Some
            ==> zeroclaw_applied(zc, c).temperature_bits == zc_temperature(zc)->0,
        zc_provider(zc) is None || zc_model(zc) is None ==> zeroclaw_applied(zc, c).model == c.model,
        zc_provider(zc) is None || zc_temperature(zc) is None
            ==> zeroclaw_applied(zc, c).temperature_bits == c.temperature_bits,
{
}

/// Discord: a bot token is taken over with the channel enabled; the allowed
/// users are the document's where it lists them, else the channel keeps its
/// own (none for a new channel); without a token the channel stays as it was.
pub proof fn lemma_discord_taken_over(zc: TomlNode, c: ConfigView)
    ensures
        zc_discord_token(zc) matches Some(t) ==> {
            let d = zeroclaw_applied(zc, c).discord;
            &&& d is Some
            &&& d->0.token == t
            &&& d->0.enabled
            &&& (zc_discord_users(zc) matches Some(u) ==> d->0.allow_from == u)
            &&& (zc_discord_users(zc) is None && c.discord is Some ==> d->0.allow_from == c.discord->0.allow_from)
            &&& (zc_discord_users(zc) is None && c.discord is None ==> d->0.allow_from.len() == 0)
        },
        zc_discord_token(zc) is None ==> zeroclaw_applied(zc, c).discord == c.discord,
{
}

/// A named provider that Claide knows gets the API key in its own entry.
proof fn lemma_named_slot_gets_key(zc: TomlNode, c: ConfigView)
    requires
        zc_provider(zc) is Some,
        zc_api_key(zc) is Some,
        provider_slot(zc_provider(zc)->0) is Some,
    ensures
        zeroclaw_applied(zc, c).providers.slot(provider_slot(zc_provider(zc)->0)->0)
            == Some(ProviderView { api_key: zc_api_key(zc) }),
{
    let slot = provider_slot(zc_provider(zc)->0)->0;
    let key = zc_api_key(zc);
    let c1 = apply_provider(zc, c);
    assert(zeroclaw_applied(zc, c).providers == c1.providers);
    assert(ProviderView { api_key: key, ..c.providers.slot_or_default(slot) } =~= ProviderView { api_key: key });
}

/// Each provider name Claide knows sends the API key to its own entry:
/// `openai`, `groq`, `gemini` (also `google`), `ollama`, `anthropic` and
/// `openrouter`.
pub proof fn lemma_known_provider_gets_key(zc: TomlNode, c: ConfigView)
    requires
        zc_provider(zc) is Some,
        zc_api_key(zc) is Some,
    ensures
        ({
            let p = zc_provider(zc)->0;
            let k = Some(ProviderView { api_key: zc_api_key(zc) });
            let r = zeroclaw_applied(zc, c).providers;
            &&& p == "openai"@ ==> r.openai == k
            &&& p == "groq"@ ==> r.groq == k
            &&& (p == "gemini"@ || p == "google"@) ==> r.gemini == k
            &&& p == "ollama"@ ==> r.ollama == k
            &&& p == "anthropic"@ ==> r.anthropic == k
            &&& p == "openrouter"@ ==> r.openrouter == k
        }),
{
    crate::config::lemma_known_provider_names();
    let p = zc_provider(zc)->0;
    if provider_slot(p) is Some {
        lemma_named_slot_gets_key(zc, c);
    }
}

proof fn lemma_first_kept(a: ReportView, b: ReportView)
    requires
        a.migrated.len() > 0,
    ensures
        a.followed_by(b).migrated.len() > 0,
        a.followed_by(b).migrated[0] == a.migrated[0],
{
}

proof fn lemma_slot_reported(zc: TomlNode)
    requires
        zc_provider(zc) is Some,
        zc_api_key(zc) is Some,
        provider_slot(zc_provider(zc)->0) is Some,
    ensures
        zeroclaw_report(zc).migrated.len() > 0,
        zeroclaw_report(zc).migrated[0] == "default_provider ("@ + zc_provider(zc)->0 + ")"@,
{
    let p = zc_provider(zc)->0;
    let r1 = report_provider(zc);
    assert(r1.migrated[0] == "default_provider ("@ + p + ")"@);
    lemma_first_kept(r1, report_workspace(zc));
    let r2 = r1.followed_by(report_workspace(zc));
    lemma_first_kept(r2, report_discord(zc));
    let r3 = r2.followed_by(report_discord(zc));
    lemma_first_kept(r3, report_agent(zc));
    let r4 = r3.followed_by(report_agent(zc));
    lemma_first_kept(r4, report_transcription(zc));
    let r5 = r4.followed_by(report_transcription(zc));
    lemma_first_kept(r5, report_cost(zc));
    let r6 = r5.followed_by(report_cost(zc));
    lemma_first_kept(r6, report_autonomy(zc));
    let r7 = r6.followed_by(report_autonomy(zc));
    lemma_first_kept(r7, report_other(zc));
    assert(zeroclaw_report(zc) == r7.followed_by(report_other(zc)));
}

/// A provider that Claide knows, named with an API key, is the first entry
/// of the migrated list: `default_provider (<name>)`.
pub proof fn lemma_known_provider_reported(zc: TomlNode)
    requires
        zc_provider(zc) is Some,
        zc_api_key(zc) is Some,
        ({
            let p = zc_provider(zc)->0;
            p == "openai"@ || p == "groq"@ || p == "gemini"@ || p == "google"@ || p == "ollama"@
                || p == "anthropic"@ || p == "openrouter"@
        }),
    ensures
        zeroclaw_report(zc).migrated.len() > 0,
        zeroclaw_report(zc).migrated[0] == "default_provider ("@ + zc_provider(zc)->0 + ")"@,
{
    crate::config::lemma_known_provider_names();
    lemma_slot_reported(zc);
}

/// What is not portable: `auto_approve` where `autonomy.auto_approve` is an
/// array, then `heartbeat` where `heartbeat.enabled` is a boolean (whichever
/// its value), and nothing else.
pub proof fn lemma_not_portable_entries(zc: TomlNode)
    ensures
        zeroclaw_report(zc).not_portable == (if strings_at(zc, seq!["autonomy"@, "auto_approve"@]) is Some {
            seq!["auto_approve — Claide uses approval gate config instead. For async channels, tools are auto-approved by default."@]
        } else {
            Seq::<Seq<char>>::empty()
        }) + (if bool_at(zc, seq!["heartbeat"@, "enabled"@]) is Some {
            seq!["heartbeat — Claide uses health endpoint + Prometheus metrics instead."@]
        } else {
            Seq::<Seq<char>>::empty()
        }),
{
    assert(zeroclaw_report(zc).not_portable =~= report_autonomy(zc).not_portable + report_other(zc).not_portable);
}

/// What is skipped, in order: an unknown provider named with an API key,
/// `max_history_messages` where `agent.max_history_messages` is an integer,
/// `shell.workspace_only` where `autonomy.workspace_only` is a boolean, and
/// `runtime_trace_mode` where it is a string; nothing else.
pub proof fn lemma_skipped_entries(zc: TomlNode)
    ensures
        zeroclaw_report(zc).skipped == (if zc_provider(zc) is Some && zc_api_key(zc) is Some
            && provider_slot(zc_provider(zc)->0) is None {
            seq![("default_provider: "@ + zc_provider(zc)->0, "Unknown provider"@)]
        } else {
            Seq::<(Seq<char>, Seq<char>)>::empty()
        }) + (if int_at(zc, seq!["agent"@, "max_history_messages"@]) is Some {
            seq![("max_history_messages"@, "Claide uses compaction tiers"@)]
        } else {
            Seq::<(Seq<char>, Seq<char>)>::empty()
        }) + (if bool_at(zc, seq!["autonomy"@, "workspace_only"@]) is Some {
            seq![("shell.workspace_only"@, "Claide uses different shell security model"@)]
        } else {
            Seq::<(Seq<char>, Seq<char>)>::empty()
        }) + (if str_at(zc, seq!["runtime_trace_mode"@]) is Some {
            seq![("runtime_trace_mode"@, "Claide uses audit trail instead"@)]
        } else {
            Seq::<(Seq<char>, Seq<char>)>::empty()
        }),
{
    assert(zeroclaw_report(zc).skipped =~= report_provider(zc).skipped + report_agent(zc).skipped
        + report_autonomy(zc).skipped + report_other(zc).skipped);
}

// ---------------------------------------------------------------------------
// Loading the config file
// ---------------------------------------------------------------------------

/// Well-known ZeroClaw config file name.
pub const ZEROCLAW_CONFIG: &'static str = "config.toml";

/// Why a ZeroClaw config file could not be loaded.
pub enum ZeroClawLoadError {
    /// The file at `path` could not be read; `detail` says why.
    Read { path: String, detail: String },
    /// The file at `path` is not TOML; `detail` is the parser's message.
    Parse { path: String, detail: String },
}

impl ZeroClawLoadError {
    pub open spec fn headline(&self) -> Seq<char> {
        match self {
            ZeroClawLoadError::Read { path, .. } => "Failed to read "@ + path@,
            ZeroClawLoadError::Parse { path, .. } => "Failed to parse "@ + path@ + " as TOML"@,
        }
    }

    pub open spec fn detail_text(&self) -> Seq<char> {
        match self {
            ZeroClawLoadError::Read { detail, .. } => detail@,
            ZeroClawLoadError::Parse { detail, .. } => detail@,
        }
    }

    /// The error's context line (`Failed to read …` / `Failed to parse … as TOML`).
    pub fn message(&self) -> (r: String)
        ensures
            r@ == self.headline(),
    {
        match self {
            ZeroClawLoadError::Read { path, .. } => join2("Failed to read ", path.as_str()),
            ZeroClawLoadError::Parse { path, .. } => join3("Failed to parse ", path.as_str(), " as TOML"),
        }
    }

    /// The context line followed by the cause, as `{:#}` shows an error chain.
    pub fn full_message(&self) -> (r: String)
        ensures
            r@ == self.headline() + ": "@ + self.detail_text(),
    {
        let mut r = self.message();
        r.append(": ");
        match self {
            ZeroClawLoadError::Read { detail, .. } => r.append(detail.as_str()),
            ZeroClawLoadError::Parse { detail, .. } => r.append(detail.as_str()),
        }
        r
    }
}

/// Parse the text of the ZeroClaw config file at `path` (the path as shown
/// in messages) into a TOML value.
pub fn parse_zeroclaw_config(path: &str, content: &str) -> (r: Result<TomlValue, ZeroClawLoadError>)
    ensures
        match crate::toml_model::toml_document(content@) {
            Ok(n) => r matches Ok(v) && v@ == n,
            Err(m) => r matches Err(ZeroClawLoadError::Parse { path: p, detail: d }) && p@ == path@ && d@ == m,
        },
{
    match crate::toml_model::parse_toml(content) {
        Ok(v) => Ok(v),
        Err(m) => Err(ZeroClawLoadError::Parse { path: owned(path), detail: m }),
    }
}

// ---------------------------------------------------------------------------
// Detection
// ---------------------------------------------------------------------------

/// Where a ZeroClaw installation was found.
#[derive(PartialEq, Eq, Structural, Clone, Copy, Debug)]
pub enum ZeroClawDirChoice {
    /// The directory named by `$ZEROCLAW_STATE_DIR`.
    StateDirVariable,
    /// `~/.zeroclaw`.
    HomeDefault,
}

/// Pick the ZeroClaw directory: `$ZEROCLAW_STATE_DIR` if it is set and holds
/// a config file, else `~/.zeroclaw` if the home directory is known and it
/// holds one. Each argument says whether the candidate's config file exists,
/// `None` where the candidate does not exist (variable unset, home unknown).
pub fn pick_zeroclaw_dir(state_dir_has_config: Option<bool>, home_default_has_config: Option<bool>) -> (r: Option<ZeroClawDirChoice>)
    ensures
        r == (if state_dir_has_config == Some(true) {
            Some(ZeroClawDirChoice::StateDirVariable)
        } else if home_default_has_config == Some(true) {
            Some(ZeroClawDirChoice::HomeDefault)
        } else {
            None
        }),
{
    if let Some(true) = state_dir_has_config {
        return Some(ZeroClawDirChoice::StateDirVariable);
    }
    if let Some(true) = home_default_has_config {
        return Some(ZeroClawDirChoice::HomeDefault);
    }
    None
}

// ---------------------------------------------------------------------------
// Workspace data + scripts copying
// ---------------------------------------------------------------------------

/// Result of copying workspace directories.
pub struct WorkspaceCopyResult {
    pub copied_files: Vec<String>,
    pub skipped_files: Vec<(String, String)>,
}

pub struct CopyResultView {
    pub copied: Seq<Seq<char>>,
    pub skipped: Seq<(Seq<char>, Seq<char>)>,
}

impl View for WorkspaceCopyResult {
    type V = CopyResultView;

    open spec fn view(&self) -> CopyResultView {
        CopyResultView { copied: texts(self.copied_files@), skipped: text_pairs(self.skipped_files@) }
    }
}

/// What to do with one entry of the ZeroClaw workspace.
pub enum CopyAction {
    /// Leave it alone.
    Ignore,
    /// Its destination exists already; it has been recorded as skipped.
    Skip,
    /// Copy it, then record it under this name with `record_copied`.
    Copy(String),
    /// Walk the directory, naming its entries with this prefix.
    Descend(String),
}

/// The persona files copied from the top of the workspace.
pub open spec fn persona_file_names() -> Seq<Seq<char>> {
    seq!["SOUL.md"@, "USER.md"@, "IDENTITY.md"@, "AGENTS.md"@, "TOOLS.md"@, "MEMORY.md"@]
}

/// The persona files copied from the top of the workspace, in order.
pub fn persona_files() -> (r: Vec<String>)
    ensures
        texts(r@) == persona_file_names(),
{
    let mut r: Vec<String> = Vec::new();
    push_text(&mut r, owned("SOUL.md"));
    push_text(&mut r, owned("USER.md"));
    push_text(&mut r, owned("IDENTITY.md"));
    push_text(&mut r, owned("AGENTS.md"));
    push_text(&mut r, owned("TOOLS.md"));
    push_text(&mut r, owned("MEMORY.md"));
    assert(texts(r@) =~= persona_file_names());
    r
}

/// The workspace directories copied, each with the prefix its entries are
/// reported under: `data/`, `scripts/`, `skills/`, in that order.
pub open spec fn workspace_dir_names() -> Seq<(Seq<char>, Seq<char>)> {
    seq![("data"@, "data/"@), ("scripts"@, "scripts/"@), ("skills"@, "skills/"@)]
}

/// The workspace directories copied, with their report prefixes.
pub fn workspace_dirs() -> (r: Vec<(String, String)>)
    ensures
        text_pairs(r@) == workspace_dir_names(),
{
    let mut r: Vec<(String, String)> = Vec::new();
    push_pair(&mut r, owned("data"), owned("data/"));
    push_pair(&mut r, owned("scripts"), owned("scripts/"));
    push_pair(&mut r, owned("skills"), owned("skills/"));
    assert(text_pairs(r@) =~= workspace_dir_names());
    r
}

/// Whether a file mode has an executable bit set (the bits that a copied
/// script keeps).
pub fn has_executable_bit(mode: u32) -> (r: bool)
    ensures
        r == (mode & 0o111u32 != 0),
{
    mode & 0o111u32 != 0
}

impl WorkspaceCopyResult {
    /// Nothing copied, nothing skipped.
    pub fn new() -> (r: WorkspaceCopyResult)
        ensures
            r@.copied == Seq::<Seq<char>>::empty(),
            r@.skipped == Seq::<(Seq<char>, Seq<char>)>::empty(),
    {
        let r = WorkspaceCopyResult { copied_files: Vec::new(), skipped_files: Vec::new() };
        assert(r@.copied =~= Seq::<Seq<char>>::empty());
        assert(r@.skipped =~= Seq::<(Seq<char>, Seq<char>)>::empty());
        r
    }

    /// Decide on a persona file `name`: ignored unless it is a file in the
    /// ZeroClaw workspace; skipped (and recorded so) if its destination
    /// exists; copied otherwise. An existing destination is never overwritten.
    pub fn plan_persona_file(&mut self, name: &str, src_is_file: bool, dst_exists: bool) -> (a: CopyAction)
        ensures
            !src_is_file ==> a is Ignore && final(self)@ == old(self)@,
            src_is_file && dst_exists ==> a is Skip && final(self)@.copied == old(self)@.copied
                && final(self)@.skipped == old(self)@.skipped.push((name@, "already exists"@)),
            src_is_file && !dst_exists ==> (a matches CopyAction::Copy(n) && n@ == name@)
                && final(self)@ == old(self)@,
    {
        if !src_is_file {
            CopyAction::Ignore
        } else if dst_exists {
            push_pair(&mut self.skipped_files, owned(name), owned("already exists"));
            CopyAction::Skip
        } else {
            CopyAction::Copy(owned(name))
        }
    }

    /// Decide on the entry `file_name` of a workspace directory whose entries
    /// are reported under `prefix`: a directory is walked with the prefix
    /// `prefix + file_name + "/"`; any other entry is skipped (and recorded
    /// so) if its destination exists, and copied otherwise. An existing
    /// destination is never overwritten.
    pub fn plan_dir_entry(&mut self, prefix: &str, file_name: &str, src_is_dir: bool, dst_exists: bool) -> (a: CopyAction)
        ensures
            src_is_dir ==> (a matches CopyAction::Descend(p) && p@ == prefix@ + file_name@ + "/"@)
                && final(self)@ == old(self)@,
            !src_is_dir && dst_exists ==> a is Skip && final(self)@.copied == old(self)@.copied
                && final(self)@.skipped == old(self)@.skipped.push((prefix@ + file_name@, "already exists"@)),
            !src_is_dir && !dst_exists ==> (a matches CopyAction::Copy(n) && n@ == prefix@ + file_name@)
                && final(self)@ == old(self)@,
    {
        let display_name = join2(prefix, file_name);
        if src_is_dir {
            let mut sub_prefix = display_name;
            sub_prefix.append("/");
            CopyAction::Descend(sub_prefix)
        } else if dst_exists {
            push_pair(&mut self.skipped_files, display_name, owned("already exists"));
            CopyAction::Skip
        } else {
            CopyAction::Copy(display_name)
        }
    }

    /// Record a file as copied.
    pub fn record_copied(&mut self, name: String)
        ensures
            final(self)@.copied == old(self)@.copied.push(name@),
            final(self)@.skipped == old(self)@.skipped,
    {
        push_text(&mut self.copied_files, name);
    }
}

} // verus!
