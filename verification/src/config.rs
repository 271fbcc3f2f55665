//! The part of Claide's configuration that the ZeroClaw migration reads and
//! writes, with its mathematical view.

use vstd::prelude::*;
use vstd::string::*;
use crate::text::{owned, same_text};

verus! {

/// Settings of one LLM provider.
pub struct ProviderConfig {
    pub api_key: Option<String>,
}

/// The providers Claide knows, each configured or not.
pub struct ProvidersConfig {
    pub anthropic: Option<ProviderConfig>,
    pub openai: Option<ProviderConfig>,
    pub openrouter: Option<ProviderConfig>,
    pub groq: Option<ProviderConfig>,
    pub gemini: Option<ProviderConfig>,
    pub ollama: Option<ProviderConfig>,
}

/// Defaults of every agent.
pub struct AgentDefaults {
    pub model: String,
    /// The sampling temperature, as the bit pattern of its `f64` value.
    pub temperature_bits: u64,
    pub workspace: String,
}

pub struct AgentsConfig {
    pub defaults: AgentDefaults,
}

/// The Discord channel.
pub struct DiscordConfig {
    pub enabled: bool,
    pub token: String,
    pub allow_from: Vec<String>,
}

pub struct ChannelsConfig {
    pub discord: Option<DiscordConfig>,
}

pub struct CompactionConfig {
    pub enabled: bool,
}

pub struct TranscriptionConfig {
    pub enabled: bool,
    pub model: String,
}

pub struct CostConfig {
    pub enabled: bool,
}

/// Claide's configuration (the settings that a migration can touch).
pub struct Config {
    pub providers: ProvidersConfig,
    pub agents: AgentsConfig,
    pub channels: ChannelsConfig,
    pub compaction: CompactionConfig,
    pub transcription: TranscriptionConfig,
    pub cost: CostConfig,
}

// ---------------------------------------------------------------------------
// Views
// ---------------------------------------------------------------------------

#[verifier::ext_equal]
pub struct ProviderView {
    pub api_key: Option<Seq<char>>,
}

#[verifier::ext_equal]
pub struct ProvidersView {
    pub anthropic: Option<ProviderView>,
    pub openai: Option<ProviderView>,
    pub openrouter: Option<ProviderView>,
    pub groq: Option<ProviderView>,
    pub gemini: Option<ProviderView>,
    pub ollama: Option<ProviderView>,
}

#[verifier::ext_equal]
pub struct DiscordView {
    pub enabled: bool,
    pub token: Seq<char>,
    pub allow_from: Seq<Seq<char>>,
}

#[verifier::ext_equal]
pub struct ConfigView {
    pub providers: ProvidersView,
    pub model: Seq<char>,
    pub temperature_bits: u64,
    pub workspace: Seq<char>,
    pub discord: Option<DiscordView>,
    pub compaction_enabled: bool,
    pub transcription_enabled: bool,
    pub transcription_model: Seq<char>,
    pub cost_enabled: bool,
}

pub open spec fn opt_str_view(s: Option<String>) -> Option<Seq<char>> {
    match s {
        Some(x) => Some(x@),
        None => None,
    }
}

impl View for ProviderConfig {
    type V = ProviderView;

    open spec fn view(&self) -> ProviderView {
        ProviderView { api_key: opt_str_view(self.api_key) }
    }
}

pub open spec fn opt_provider_view(p: Option<ProviderConfig>) -> Option<ProviderView> {
    match p {
        Some(x) => Some(x@),
        None => None,
    }
}

impl View for ProvidersConfig {
    type V = ProvidersView;

    open spec fn view(&self) -> ProvidersView {
        ProvidersView {
            anthropic: opt_provider_view(self.anthropic),
            openai: opt_provider_view(self.openai),
            openrouter: opt_provider_view(self.openrouter),
            groq: opt_provider_view(self.groq),
            gemini: opt_provider_view(self.gemini),
            ollama: opt_provider_view(self.ollama),
        }
    }
}

impl View for DiscordConfig {
    type V = DiscordView;

    open spec fn view(&self) -> DiscordView {
        DiscordView {
            enabled: self.enabled,
            token: self.token@,
            allow_from: self.allow_from@.map_values(|s: String| s@),
        }
    }
}

pub open spec fn opt_discord_view(d: Option<DiscordConfig>) -> Option<DiscordView> {
    match d {
        Some(x) => Some(x@),
        None => None,
    }
}

impl View for Config {
    type V = ConfigView;

    open spec fn view(&self) -> ConfigView {
        ConfigView {
            providers: self.providers@,
            model: self.agents.defaults.model@,
            temperature_bits: self.agents.defaults.temperature_bits,
            workspace: self.agents.defaults.workspace@,
            discord: opt_discord_view(self.channels.discord),
            compaction_enabled: self.compaction.enabled,
            transcription_enabled: self.transcription.enabled,
            transcription_model: self.transcription.model@,
            cost_enabled: self.cost.enabled,
        }
    }
}

// ---------------------------------------------------------------------------
// Defaults
// ---------------------------------------------------------------------------

/// The bit pattern of the `f64` value 0.7, the default temperature.
pub const DEFAULT_TEMPERATURE_BITS: u64 = 0x3FE6_6666_6666_6666u64;

pub open spec fn default_provider_view() -> ProviderView {
    ProviderView { api_key: None }
}

pub open spec fn default_discord_view() -> DiscordView {
    DiscordView { enabled: false, token: Seq::empty(), allow_from: Seq::empty() }
}

impl Default for ProviderConfig {
    fn default() -> (r: ProviderConfig)
        ensures
            r@ == default_provider_view(),
    {
        ProviderConfig { api_key: None }
    }
}

impl Default for DiscordConfig {
    fn default() -> (r: DiscordConfig)
        ensures
            r@ == default_discord_view(),
    {
        let r = DiscordConfig { enabled: false, token: String::new(), allow_from: Vec::new() };
        assert(r@.allow_from =~= Seq::<Seq<char>>::empty());
        r
    }
}

/// The default configuration: no provider, no Discord channel, every
/// feature off, workspace `~/.claide/workspace`, temperature 0.7.
pub open spec fn default_config_view() -> ConfigView {
    ConfigView {
        providers: ProvidersView {
            anthropic: None,
            openai: None,
            openrouter: None,
            groq: None,
            gemini: None,
            ollama: None,
        },
        model: Seq::empty(),
        temperature_bits: DEFAULT_TEMPERATURE_BITS,
        workspace: "~/.claide/workspace"@,
        discord: None,
        compaction_enabled: false,
        transcription_enabled: false,
        transcription_model: Seq::empty(),
        cost_enabled: false,
    }
}

impl Default for Config {
    fn default() -> (r: Config)
        ensures
            r@ == default_config_view(),
    {
        Config {
            providers: ProvidersConfig {
                anthropic: None,
                openai: None,
                openrouter: None,
                groq: None,
                gemini: None,
                ollama: None,
            },
            agents: AgentsConfig {
                defaults: AgentDefaults {
                    model: String::new(),
                    temperature_bits: DEFAULT_TEMPERATURE_BITS,
                    workspace: owned("~/.claide/workspace"),
                },
            },
            channels: ChannelsConfig { discord: None },
            compaction: CompactionConfig { enabled: false },
            transcription: TranscriptionConfig { enabled: false, model: String::new() },
            cost: CostConfig { enabled: false },
        }
    }
}

// ---------------------------------------------------------------------------
// Provider lookup by name
// ---------------------------------------------------------------------------

/// The provider entries of `ProvidersConfig`.
#[derive(PartialEq, Eq, Structural, Clone, Copy)]
pub enum ProviderSlot {
    OpenAi,
    Groq,
    Gemini,
    Ollama,
    Anthropic,
    OpenRouter,
}

/// The entry that a provider name designates; `google` is another name for Gemini.
pub open spec fn provider_slot(name: Seq<char>) -> Option<ProviderSlot> {
    if name == "openai"@ {
        Some(ProviderSlot::OpenAi)
    } else if name == "groq"@ {
        Some(ProviderSlot::Groq)
    } else if name == "gemini"@ || name == "google"@ {
        Some(ProviderSlot::Gemini)
    } else if name == "ollama"@ {
        Some(ProviderSlot::Ollama)
    } else if name == "anthropic"@ {
        Some(ProviderSlot::Anthropic)
    } else if name == "openrouter"@ {
        Some(ProviderSlot::OpenRouter)
    } else {
        None
    }
}

impl ProvidersView {
    pub open spec fn slot(self, s: ProviderSlot) -> Option<ProviderView> {
        match s {
            ProviderSlot::OpenAi => self.openai,
            ProviderSlot::Groq => self.groq,
            ProviderSlot::Gemini => self.gemini,
            ProviderSlot::Ollama => self.ollama,
            ProviderSlot::Anthropic => self.anthropic,
            ProviderSlot::OpenRouter => self.openrouter,
        }
    }

    pub open spec fn with_slot(self, s: ProviderSlot, p: Option<ProviderView>) -> ProvidersView {
        match s {
            ProviderSlot::OpenAi => ProvidersView { openai: p, ..self },
            ProviderSlot::Groq => ProvidersView { groq: p, ..self },
            ProviderSlot::Gemini => ProvidersView { gemini: p, ..self },
            ProviderSlot::Ollama => ProvidersView { ollama: p, ..self },
            ProviderSlot::Anthropic => ProvidersView { anthropic: p, ..self },
            ProviderSlot::OpenRouter => ProvidersView { openrouter: p, ..self },
        }
    }

    /// The entry `s`, or a default one where it is not configured.
    pub open spec fn slot_or_default(self, s: ProviderSlot) -> ProviderView {
        match self.slot(s) {
            Some(p) => p,
            None => default_provider_view(),
        }
    }
}

fn slot_of(name: &str) -> (r: Option<ProviderSlot>)
    ensures
        r == provider_slot(name@),
{
    if same_text(name, "openai") {
        Some(ProviderSlot::OpenAi)
    } else if same_text(name, "groq") {
        Some(ProviderSlot::Groq)
    } else if same_text(name, "gemini") || same_text(name, "google") {
        Some(ProviderSlot::Gemini)
    } else if same_text(name, "ollama") {
        Some(ProviderSlot::Ollama)
    } else if same_text(name, "anthropic") {
        Some(ProviderSlot::Anthropic)
    } else if same_text(name, "openrouter") {
        Some(ProviderSlot::OpenRouter)
    } else {
        None
    }
}

fn ensure_entry(entry: &mut Option<ProviderConfig>) -> (r: &mut ProviderConfig)
    ensures
        r@ == (match opt_provider_view(*old(entry)) { Some(p) => p, None => default_provider_view() }),
        *final(entry) == Some(*final(r)),
{
    if entry.is_none() {
        *entry = Some(ProviderConfig::default());
    }
    match entry {
        Some(p) => p,
        None => unreached(),
    }
}

/// Each provider name Claide knows designates an entry of its own:
/// `openai`, `groq`, `gemini` (and `google`, another name for it), `ollama`,
/// `anthropic` and `openrouter`; `get_provider_mut` therefore finds or creates
/// that entry for each of them.
pub proof fn lemma_known_provider_names()
    ensures
        provider_slot("openai"@) == Some(ProviderSlot::OpenAi),
        provider_slot("groq"@) == Some(ProviderSlot::Groq),
        provider_slot("gemini"@) == Some(ProviderSlot::Gemini),
        provider_slot("google"@) == Some(ProviderSlot::Gemini),
        provider_slot("ollama"@) == Some(ProviderSlot::Ollama),
        provider_slot("anthropic"@) == Some(ProviderSlot::Anthropic),
        provider_slot("openrouter"@) == Some(ProviderSlot::OpenRouter),
{
    reveal_strlit("openai");
    reveal_strlit("groq");
    reveal_strlit("gemini");
    reveal_strlit("google");
    reveal_strlit("ollama");
    reveal_strlit("anthropic");
    reveal_strlit("openrouter");
    assert("groq"@[0] != "openai"@[0]);
    assert("gemini"@[0] != "openai"@[0] && "gemini"@[1] != "groq"@[1]);
    assert("google"@[0] != "openai"@[0] && "google"@[1] != "groq"@[1] && "google"@[1] != "gemini"@[1]);
    assert("ollama"@[1] != "openai"@[1] && "ollama"@[0] != "groq"@[0] && "ollama"@[0] != "gemini"@[0]
        && "ollama"@[0] != "google"@[0]);
    assert("anthropic"@[0] != "openai"@[0] && "anthropic"@[0] != "groq"@[0] && "anthropic"@[0] != "gemini"@[0]
        && "anthropic"@[0] != "google"@[0] && "anthropic"@[0] != "ollama"@[0]);
    assert("openrouter"@[4] != "openai"@[4] && "openrouter"@[0] != "groq"@[0] && "openrouter"@[0] != "gemini"@[0]
        && "openrouter"@[0] != "google"@[0] && "openrouter"@[1] != "ollama"@[1]
        && "openrouter"@[0] != "anthropic"@[0]);
}

/// The entry of the provider called `name`, created with default settings if
/// it is not configured yet; `None` for a name Claide does not know.
pub fn get_provider_mut<'a>(providers: &'a mut ProvidersConfig, name: &str) -> (r: Option<&'a mut ProviderConfig>)
    ensures
        r is Some <==> provider_slot(name@) is Some,
        r is None ==> *final(providers) == *old(providers),
        r matches Some(p) ==> {
            let s = provider_slot(name@)->0;
            &&& p@ == old(providers)@.slot_or_default(s)
            &&& final(providers)@ == old(providers)@.with_slot(s, Some(final(p)@))
        },
{
    match slot_of(name) {
        Some(ProviderSlot::OpenAi) => Some(ensure_entry(&mut providers.openai)),
        Some(ProviderSlot::Groq) => Some(ensure_entry(&mut providers.groq)),
        Some(ProviderSlot::Gemini) => Some(ensure_entry(&mut providers.gemini)),
        Some(ProviderSlot::Ollama) => Some(ensure_entry(&mut providers.ollama)),
        Some(ProviderSlot::Anthropic) => Some(ensure_entry(&mut providers.anthropic)),
        Some(ProviderSlot::OpenRouter) => Some(ensure_entry(&mut providers.openrouter)),
        None => None,
    }
}

} // verus!
