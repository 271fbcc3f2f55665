//! Decisions of the `claide migrate` commands: the answer to a prompt, and
//! the step function that says, from the command's state and what just
//! happened, what the command does next.

use vstd::prelude::*;
use vstd::string::*;

verus! {

/// `c` with an ASCII capital letter made small.
pub open spec fn ascii_lower(c: char) -> char {
    if 'A' <= c <= 'Z' {
        ((c as u32) + 32) as char
    } else {
        c
    }
}

/// `s` with its ASCII capital letters made small (`to_ascii_lowercase`).
pub open spec fn ascii_lowercase(s: Seq<char>) -> Seq<char> {
    s.map_values(|c: char| ascii_lower(c))
}

/// A `[Y/n]` prompt is answered yes by an empty answer, `y` or `yes`, in any case.
pub open spec fn affirmative(answer: Seq<char>) -> bool {
    let a = ascii_lowercase(answer);
    a.len() == 0 || a == "y"@ || a == "yes"@
}

fn is_letter(c: char, small: char, capital: char) -> (r: bool)
    requires
        'a' <= small <= 'z',
        capital as u32 + 32 == small as u32,
    ensures
        r == (ascii_lower(c) == small),
{
    c == small || c == capital
}

/// Whether the (trimmed) answer to a `[Y/n]` prompt accepts.
pub fn is_affirmative(answer: &str) -> (r: bool)
    ensures
        r == affirmative(answer@),
{
    proof {
        reveal_strlit("y");
        reveal_strlit("yes");
    }
    let n = answer.unicode_len();
    let ghost lower = ascii_lowercase(answer@);
    if n == 0 {
        return true;
    }
    let y = is_letter(answer.get_char(0), 'y', 'Y');
    if n == 1 {
        assert(lower[0] == ascii_lower(answer@[0]));
        if y {
            assert(lower =~= "y"@);
        } else {
            assert(lower[0] != "y"@[0]);
        }
        return y;
    }
    if n == 3 {
        let e = is_letter(answer.get_char(1), 'e', 'E');
        let s = is_letter(answer.get_char(2), 's', 'S');
        assert(lower.len() == 3);
        assert(lower != "y"@);
        assert(lower[0] == ascii_lower(answer@[0]));
        assert(lower[1] == ascii_lower(answer@[1]));
        assert(lower[2] == ascii_lower(answer@[2]));
        if y && e && s {
            assert(lower =~= "yes"@);
        } else if !y {
            assert(lower[0] != "yes"@[0]);
        } else if !e {
            assert(lower[1] != "yes"@[1]);
        } else {
            assert(lower[2] != "yes"@[2]);
        }
        return y && e && s;
    }
    false
}

// ---------------------------------------------------------------------------
// The migrate commands as a state machine
// ---------------------------------------------------------------------------

/// The installation that a migration reads.
#[derive(Clone, Copy, PartialEq, Eq, Structural, Debug)]
pub enum MigrateSource {
    /// OpenClaw (`claide migrate`): JSON config and skills.
    OpenClaw,
    /// ZeroClaw (`claide migrate zeroclaw`): TOML config and workspace.
    ZeroClaw,
}

/// Where a migration is.
#[derive(Clone, Copy, PartialEq, Eq, Structural, Debug)]
pub enum MigratePhase {
    Begin,
    CheckingDir,
    Detecting,
    Loading,
    Summarizing,
    AskingConfig,
    MigratingConfig,
    AskingSkills,
    CopyingSkills,
    AskingWorkspace,
    CopyingWorkspace,
    Validating,
    Finished,
}

/// The state of a migration.
#[derive(Clone, Copy, PartialEq, Eq, Structural, Debug)]
pub struct MigrateState {
    pub source: MigrateSource,
    /// `--yes`: no prompt; every step is taken.
    pub yes: bool,
    /// `--dry-run`: nothing is written.
    pub dry_run: bool,
    /// `--from` named the installation directory.
    pub from_given: bool,
    pub phase: MigratePhase,
    /// The configuration has been converted.
    pub config_migrated: bool,
    /// The number of skills found (OpenClaw).
    pub skill_count: u64,
}

/// What the command's outside work reports back.
pub enum MigrateEvent {
    /// The command starts.
    Started,
    /// Whether the directory named by `--from` exists.
    DirChecked { exists: bool },
    /// Whether an installation was detected.
    DirDetected { found: bool },
    /// Whether the installation's config loaded.
    ConfigLoaded { ok: bool },
    /// The number of skills found.
    Summarized { skill_count: u64 },
    /// The (trimmed) answer to the last prompt.
    Answer(String),
    /// The last action is done.
    Done,
}

pub enum EventView {
    Started,
    DirChecked { exists: bool },
    DirDetected { found: bool },
    ConfigLoaded { ok: bool },
    Summarized { skill_count: u64 },
    Answer(Seq<char>),
    Done,
}

impl View for MigrateEvent {
    type V = EventView;

    open spec fn view(&self) -> EventView {
        match self {
            MigrateEvent::Started => EventView::Started,
            MigrateEvent::DirChecked { exists } => EventView::DirChecked { exists: *exists },
            MigrateEvent::DirDetected { found } => EventView::DirDetected { found: *found },
            MigrateEvent::ConfigLoaded { ok } => EventView::ConfigLoaded { ok: *ok },
            MigrateEvent::Summarized { skill_count } => EventView::Summarized { skill_count: *skill_count },
            MigrateEvent::Answer(t) => EventView::Answer(t@),
            MigrateEvent::Done => EventView::Done,
        }
    }
}

/// The question a prompt asks.
#[derive(Clone, Copy, PartialEq, Eq, Structural, Debug)]
pub enum PromptKind {
    MigrateConfig,
    CopySkills,
    CopyWorkspace,
}

/// What the command does next.
#[derive(Clone, Copy, PartialEq, Eq, Structural, Debug)]
pub enum MigrateAction {
    /// Check that the `--from` directory exists.
    CheckGivenDir,
    /// Look for an installation.
    DetectDir,
    /// Stop with the error that the `--from` directory does not exist.
    FailMissingDir,
    /// Say that no installation was found, and stop without error.
    ReportNotDetected,
    /// Load the installation's config.
    LoadConfig,
    /// Count and show what was found (providers, channels, skills).
    Summarize,
    /// Ask a `[Y/n]` question.
    Prompt(PromptKind),
    /// Convert the config; save it (after a backup of the old file) where
    /// `save`, else only say where it would be saved.
    MigrateConfig { save: bool },
    /// Say that the config is not migrated.
    SkipConfig,
    /// Say that there are no skills to copy.
    NoSkills,
    /// Copy the skills where `write`, else only say what would be copied.
    CopySkills { write: bool },
    /// Copy the workspace where `write`, else only say what would be copied.
    CopyWorkspace { write: bool },
    /// Validate the saved config.
    Validate,
    /// Show the report and stop.
    Report,
    /// The event does not fit the state; nothing changes.
    Invalid,
}

/// The state at the start of a migration.
pub open spec fn initial_state(source: MigrateSource, yes: bool, dry_run: bool, from_given: bool) -> MigrateState {
    MigrateState {
        source,
        yes,
        dry_run,
        from_given,
        phase: MigratePhase::Begin,
        config_migrated: false,
        skill_count: 0,
    }
}

/// The state at the start of a migration.
pub fn migrate_start(source: MigrateSource, yes: bool, dry_run: bool, from_given: bool) -> (r: MigrateState)
    ensures
        r == initial_state(source, yes, dry_run, from_given),
{
    MigrateState {
        source,
        yes,
        dry_run,
        from_given,
        phase: MigratePhase::Begin,
        config_migrated: false,
        skill_count: 0,
    }
}

pub open spec fn in_phase(s: MigrateState, phase: MigratePhase) -> MigrateState {
    MigrateState { phase, ..s }
}

/// The config step: converted at once under `--yes`, asked about otherwise.
pub open spec fn config_step(s: MigrateState) -> (MigrateState, MigrateAction) {
    if s.yes {
        (
            MigrateState { phase: MigratePhase::MigratingConfig, config_migrated: true, ..s },
            MigrateAction::MigrateConfig { save: !s.dry_run },
        )
    } else {
        (in_phase(s, MigratePhase::AskingConfig), MigrateAction::Prompt(PromptKind::MigrateConfig))
    }
}

/// The last step: validation of a config that was converted and saved,
/// then the report.
pub open spec fn finish_step(s: MigrateState) -> (MigrateState, MigrateAction) {
    if s.source == MigrateSource::OpenClaw && s.config_migrated && !s.dry_run {
        (in_phase(s, MigratePhase::Validating), MigrateAction::Validate)
    } else {
        (in_phase(s, MigratePhase::Finished), MigrateAction::Report)
    }
}

/// The skills step (OpenClaw): nothing to copy without skills; copied at once
/// under `--yes`; asked about otherwise.
pub open spec fn skills_step(s: MigrateState) -> (MigrateState, MigrateAction) {
    if s.skill_count == 0 {
        (in_phase(s, MigratePhase::CopyingSkills), MigrateAction::NoSkills)
    } else if s.yes {
        (in_phase(s, MigratePhase::CopyingSkills), MigrateAction::CopySkills { write: !s.dry_run })
    } else {
        (in_phase(s, MigratePhase::AskingSkills), MigrateAction::Prompt(PromptKind::CopySkills))
    }
}

/// The workspace step (ZeroClaw): copied at once under `--yes`, asked about otherwise.
pub open spec fn workspace_step(s: MigrateState) -> (MigrateState, MigrateAction) {
    if s.yes {
        (in_phase(s, MigratePhase::CopyingWorkspace), MigrateAction::CopyWorkspace { write: !s.dry_run })
    } else {
        (in_phase(s, MigratePhase::AskingWorkspace), MigrateAction::Prompt(PromptKind::CopyWorkspace))
    }
}

/// The step after the config step.
pub open spec fn after_config_step(s: MigrateState) -> (MigrateState, MigrateAction) {
    if s.source == MigrateSource::OpenClaw {
        skills_step(s)
    } else {
        workspace_step(s)
    }
}

/// The next state and action of a migration in state `s` after `e`.
///
/// - `--from` names a directory that must exist, else the command fails;
///   without it, an installation is looked for, and none found ends the
///   command without error.
/// - OpenClaw: the config step follows the summary whether or not the config
///   loaded (a config that failed to load counts as empty); then the skills.
/// - ZeroClaw: a config that failed to load skips the config step; then the
///   workspace.
/// - A prompt's answer decides its step (`is_affirmative`).
pub open spec fn migrate_step_spec(s: MigrateState, e: EventView) -> (MigrateState, MigrateAction) {
    match (s.phase, e) {
        (MigratePhase::Begin, EventView::Started) => if s.from_given {
            (in_phase(s, MigratePhase::CheckingDir), MigrateAction::CheckGivenDir)
        } else {
            (in_phase(s, MigratePhase::Detecting), MigrateAction::DetectDir)
        },
        (MigratePhase::CheckingDir, EventView::DirChecked { exists }) => if exists {
            (in_phase(s, MigratePhase::Loading), MigrateAction::LoadConfig)
        } else {
            (in_phase(s, MigratePhase::Finished), MigrateAction::FailMissingDir)
        },
        (MigratePhase::Detecting, EventView::DirDetected { found }) => if found {
            (in_phase(s, MigratePhase::Loading), MigrateAction::LoadConfig)
        } else {
            (in_phase(s, MigratePhase::Finished), MigrateAction::ReportNotDetected)
        },
        (MigratePhase::Loading, EventView::ConfigLoaded { ok }) => if s.source == MigrateSource::OpenClaw {
            (in_phase(s, MigratePhase::Summarizing), MigrateAction::Summarize)
        } else if ok {
            config_step(s)
        } else {
            workspace_step(s)
        },
        (MigratePhase::Summarizing, EventView::Summarized { skill_count }) => config_step(
            MigrateState { skill_count, ..s },
        ),
        (MigratePhase::AskingConfig, EventView::Answer(t)) => if affirmative(t) {
            (
                MigrateState { phase: MigratePhase::MigratingConfig, config_migrated: true, ..s },
                MigrateAction::MigrateConfig { save: !s.dry_run },
            )
        } else {
            (in_phase(s, MigratePhase::MigratingConfig), MigrateAction::SkipConfig)
        },
        (MigratePhase::MigratingConfig, EventView::Done) => after_config_step(s),
        (MigratePhase::AskingSkills, EventView::Answer(t)) => if affirmative(t) {
            (in_phase(s, MigratePhase::CopyingSkills), MigrateAction::CopySkills { write: !s.dry_run })
        } else {
            finish_step(s)
        },
        (MigratePhase::CopyingSkills, EventView::Done) => finish_step(s),
        (MigratePhase::Validating, EventView::Done) => (in_phase(s, MigratePhase::Finished), MigrateAction::Report),
        (MigratePhase::AskingWorkspace, EventView::Answer(t)) => if affirmative(t) {
            (in_phase(s, MigratePhase::CopyingWorkspace), MigrateAction::CopyWorkspace { write: !s.dry_run })
        } else {
            (in_phase(s, MigratePhase::Finished), MigrateAction::Report)
        },
        (MigratePhase::CopyingWorkspace, EventView::Done) => (in_phase(s, MigratePhase::Finished), MigrateAction::Report),
        _ => (s, MigrateAction::Invalid),
    }
}

/// An action that writes files: a save, a skills copy or a workspace copy
/// that is not a preview.
pub open spec fn writes(a: MigrateAction) -> bool {
    ||| a == MigrateAction::MigrateConfig { save: true }
    ||| a == MigrateAction::CopySkills { write: true }
    ||| a == MigrateAction::CopyWorkspace { write: true }
}

fn config_step_exec(s: MigrateState) -> (r: (MigrateState, MigrateAction))
    ensures
        r == config_step(s),
{
    if s.yes {
        (
            MigrateState { phase: MigratePhase::MigratingConfig, config_migrated: true, ..s },
            MigrateAction::MigrateConfig { save: !s.dry_run },
        )
    } else {
        (MigrateState { phase: MigratePhase::AskingConfig, ..s }, MigrateAction::Prompt(PromptKind::MigrateConfig))
    }
}

fn finish_step_exec(s: MigrateState) -> (r: (MigrateState, MigrateAction))
    ensures
        r == finish_step(s),
{
    if s.source == MigrateSource::OpenClaw && s.config_migrated && !s.dry_run {
        (MigrateState { phase: MigratePhase::Validating, ..s }, MigrateAction::Validate)
    } else {
        (MigrateState { phase: MigratePhase::Finished, ..s }, MigrateAction::Report)
    }
}

fn workspace_step_exec(s: MigrateState) -> (r: (MigrateState, MigrateAction))
    ensures
        r == workspace_step(s),
{
    if s.yes {
        (MigrateState { phase: MigratePhase::CopyingWorkspace, ..s }, MigrateAction::CopyWorkspace { write: !s.dry_run })
    } else {
        (MigrateState { phase: MigratePhase::AskingWorkspace, ..s }, MigrateAction::Prompt(PromptKind::CopyWorkspace))
    }
}

fn after_config_step_exec(s: MigrateState) -> (r: (MigrateState, MigrateAction))
    ensures
        r == after_config_step(s),
{
    if s.source == MigrateSource::OpenClaw {
        if s.skill_count == 0 {
            (MigrateState { phase: MigratePhase::CopyingSkills, ..s }, MigrateAction::NoSkills)
        } else if s.yes {
            (MigrateState { phase: MigratePhase::CopyingSkills, ..s }, MigrateAction::CopySkills { write: !s.dry_run })
        } else {
            (MigrateState { phase: MigratePhase::AskingSkills, ..s }, MigrateAction::Prompt(PromptKind::CopySkills))
        }
    } else {
        workspace_step_exec(s)
    }
}

/// The next state and action of a migration: see `migrate_step_spec`.
/// Under `--dry-run` no action writes a file; under `--yes` no action is a
/// prompt; the options and the source never change.
pub fn migrate_step(state: &MigrateState, event: MigrateEvent) -> (r: (MigrateState, MigrateAction))
    ensures
        r == migrate_step_spec(*state, event@),
        state.dry_run ==> !writes(r.1),
        state.yes ==> !(r.1 is Prompt),
        r.0.source == state.source && r.0.yes == state.yes && r.0.dry_run == state.dry_run
            && r.0.from_given == state.from_given,
{
    let s = *state;
    let r = match (s.phase, event) {
        (MigratePhase::Begin, MigrateEvent::Started) => if s.from_given {
            (MigrateState { phase: MigratePhase::CheckingDir, ..s }, MigrateAction::CheckGivenDir)
        } else {
            (MigrateState { phase: MigratePhase::Detecting, ..s }, MigrateAction::DetectDir)
        },
        (MigratePhase::CheckingDir, MigrateEvent::DirChecked { exists }) => if exists {
            (MigrateState { phase: MigratePhase::Loading, ..s }, MigrateAction::LoadConfig)
        } else {
            (MigrateState { phase: MigratePhase::Finished, ..s }, MigrateAction::FailMissingDir)
        },
        (MigratePhase::Detecting, MigrateEvent::DirDetected { found }) => if found {
            (MigrateState { phase: MigratePhase::Loading, ..s }, MigrateAction::LoadConfig)
        } else {
            (MigrateState { phase: MigratePhase::Finished, ..s }, MigrateAction::ReportNotDetected)
        },
        (MigratePhase::Loading, MigrateEvent::ConfigLoaded { ok }) => if s.source == MigrateSource::OpenClaw {
            (MigrateState { phase: MigratePhase::Summarizing, ..s }, MigrateAction::Summarize)
        } else if ok {
            config_step_exec(s)
        } else {
            workspace_step_exec(s)
        },
        (MigratePhase::Summarizing, MigrateEvent::Summarized { skill_count }) => config_step_exec(
            MigrateState { skill_count, ..s },
        ),
        (MigratePhase::AskingConfig, MigrateEvent::Answer(t)) => if is_affirmative(t.as_str()) {
            (
                MigrateState { phase: MigratePhase::MigratingConfig, config_migrated: true, ..s },
                MigrateAction::MigrateConfig { save: !s.dry_run },
            )
        } else {
            (MigrateState { phase: MigratePhase::MigratingConfig, ..s }, MigrateAction::SkipConfig)
        },
        (MigratePhase::MigratingConfig, MigrateEvent::Done) => after_config_step_exec(s),
        (MigratePhase::AskingSkills, MigrateEvent::Answer(t)) => if is_affirmative(t.as_str()) {
            (MigrateState { phase: MigratePhase::CopyingSkills, ..s }, MigrateAction::CopySkills { write: !s.dry_run })
        } else {
            finish_step_exec(s)
        },
        (MigratePhase::CopyingSkills, MigrateEvent::Done) => finish_step_exec(s),
        (MigratePhase::Validating, MigrateEvent::Done) => (MigrateState { phase: MigratePhase::Finished, ..s }, MigrateAction::Report),
        (MigratePhase::AskingWorkspace, MigrateEvent::Answer(t)) => if is_affirmative(t.as_str()) {
            (MigrateState { phase: MigratePhase::CopyingWorkspace, ..s }, MigrateAction::CopyWorkspace { write: !s.dry_run })
        } else {
            (MigrateState { phase: MigratePhase::Finished, ..s }, MigrateAction::Report)
        },
        (MigratePhase::CopyingWorkspace, MigrateEvent::Done) => (MigrateState { phase: MigratePhase::Finished, ..s }, MigrateAction::Report),
        _ => (s, MigrateAction::Invalid),
    };
    r
}

// ---------------------------------------------------------------------------
// Laws of the migrate commands
// ---------------------------------------------------------------------------

/// The actions of a migration from state `s` that is fed `events` in turn.
pub open spec fn run_actions(s: MigrateState, events: Seq<EventView>) -> Seq<MigrateAction>
    decreases events.len(),
{
    if events.len() == 0 {
        Seq::empty()
    } else {
        let (next, a) = migrate_step_spec(s, events[0]);
        seq![a] + run_actions(next, events.subrange(1, events.len() as int))
    }
}

proof fn lemma_step_keeps_options(s: MigrateState, e: EventView)
    ensures
        ({
            let (next, a) = migrate_step_spec(s, e);
            &&& next.source == s.source && next.yes == s.yes && next.dry_run == s.dry_run
            &&& s.dry_run ==> !writes(a)
            &&& s.yes ==> !(a is Prompt)
        }),
{
}

/// Under `--dry-run`, whatever happens, no action of the migration writes a
/// file: nothing is saved, backed up or copied.
pub proof fn lemma_dry_run_never_writes(s: MigrateState, events: Seq<EventView>)
    requires
        s.dry_run,
    ensures
        forall|i: int| 0 <= i < run_actions(s, events).len() ==> !writes(#[trigger] run_actions(s, events)[i]),
    decreases events.len(),
{
    if events.len() > 0 {
        let (next, a) = migrate_step_spec(s, events[0]);
        lemma_step_keeps_options(s, events[0]);
        let rest = events.subrange(1, events.len() as int);
        lemma_dry_run_never_writes(next, rest);
        assert forall|i: int| 0 <= i < run_actions(s, events).len() implies !writes(
            #[trigger] run_actions(s, events)[i],
        ) by {
            if i > 0 {
                assert(run_actions(s, events)[i] == run_actions(next, rest)[i - 1]);
            }
        }
    }
}

/// Under `--yes`, whatever happens, the migration asks no question.
pub proof fn lemma_yes_never_prompts(s: MigrateState, events: Seq<EventView>)
    requires
        s.yes,
    ensures
        forall|i: int| 0 <= i < run_actions(s, events).len() ==> !(#[trigger] run_actions(s, events)[i] is Prompt),
    decreases events.len(),
{
    if events.len() > 0 {
        let (next, a) = migrate_step_spec(s, events[0]);
        lemma_step_keeps_options(s, events[0]);
        let rest = events.subrange(1, events.len() as int);
        lemma_yes_never_prompts(next, rest);
        assert forall|i: int| 0 <= i < run_actions(s, events).len() implies !(
        #[trigger] run_actions(s, events)[i] is Prompt) by {
            if i > 0 {
                assert(run_actions(s, events)[i] == run_actions(next, rest)[i - 1]);
            }
        }
    }
}

/// The phases of a ZeroClaw migration after its config step, or in place of it.
pub open spec fn past_config(s: MigrateState) -> bool {
    ||| s.phase == MigratePhase::AskingWorkspace
    ||| s.phase == MigratePhase::CopyingWorkspace
    ||| s.phase == MigratePhase::Finished
}

pub open spec fn touches_config(a: MigrateAction) -> bool {
    a is MigrateConfig || a is SkipConfig || a == MigrateAction::Prompt(PromptKind::MigrateConfig)
}

proof fn lemma_past_config_stays(s: MigrateState, events: Seq<EventView>)
    requires
        s.source == MigrateSource::ZeroClaw,
        past_config(s),
    ensures
        forall|i: int| 0 <= i < run_actions(s, events).len() ==> !touches_config(#[trigger] run_actions(s, events)[i]),
    decreases events.len(),
{
    if events.len() > 0 {
        let (next, a) = migrate_step_spec(s, events[0]);
        let rest = events.subrange(1, events.len() as int);
        lemma_past_config_stays(next, rest);
        assert forall|i: int| 0 <= i < run_actions(s, events).len() implies !touches_config(
            #[trigger] run_actions(s, events)[i],
        ) by {
            if i > 0 {
                assert(run_actions(s, events)[i] == run_actions(next, rest)[i - 1]);
            }
        }
    }
}

/// A ZeroClaw config that fails to load is neither converted nor asked
/// about; the migration goes on with the workspace only.
pub proof fn lemma_zeroclaw_load_failure_skips_config(s: MigrateState, events: Seq<EventView>)
    requires
        s.source == MigrateSource::ZeroClaw,
        s.phase == MigratePhase::Loading,
        events.len() > 0,
        events[0] == (EventView::ConfigLoaded { ok: false }),
    ensures
        forall|i: int| 0 <= i < run_actions(s, events).len() ==> !touches_config(#[trigger] run_actions(s, events)[i]),
{
    let (next, a) = migrate_step_spec(s, events[0]);
    let rest = events.subrange(1, events.len() as int);
    lemma_past_config_stays(next, rest);
    assert forall|i: int| 0 <= i < run_actions(s, events).len() implies !touches_config(
        #[trigger] run_actions(s, events)[i],
    ) by {
        if i > 0 {
            assert(run_actions(s, events)[i] == run_actions(next, rest)[i - 1]);
        }
    }
}

/// A finished migration takes no further step.
pub proof fn lemma_finished_is_final(s: MigrateState, e: EventView)
    requires
        s.phase == MigratePhase::Finished,
    ensures
        migrate_step_spec(s, e) == (s, MigrateAction::Invalid),
{
}

// ---------------------------------------------------------------------------
// `--yes`: a whole run
// ---------------------------------------------------------------------------

/// The state of a migration from `s` after `events`.
pub open spec fn run_end(s: MigrateState, events: Seq<EventView>) -> MigrateState
    decreases events.len(),
{
    if events.len() == 0 {
        s
    } else {
        run_end(migrate_step_spec(s, events[0]).0, events.subrange(1, events.len() as int))
    }
}

/// A phase that waits for the answer to a prompt.
pub open spec fn asking(p: MigratePhase) -> bool {
    p == MigratePhase::AskingConfig || p == MigratePhase::AskingSkills || p == MigratePhase::AskingWorkspace
}

/// `a` and `b` are the same event, or both are answers (whatever their text).
pub open spec fn same_but_answer(a: EventView, b: EventView) -> bool {
    a == b || (a is Answer && b is Answer)
}

proof fn lemma_yes_step(s: MigrateState, e: EventView)
    requires
        s.yes,
        !asking(s.phase),
    ensures
        !asking(migrate_step_spec(s, e).0.phase),
        migrate_step_spec(s, e).0.yes,
        e is Answer ==> migrate_step_spec(s, e) == (s, MigrateAction::Invalid),
{
}

/// Under `--yes` nothing that is typed matters: two runs whose events differ
/// only in the text of answers take the same actions and end in the same state.
pub proof fn lemma_yes_answers_do_not_matter(s: MigrateState, e1: Seq<EventView>, e2: Seq<EventView>)
    requires
        s.yes,
        !asking(s.phase),
        e1.len() == e2.len(),
        forall|i: int| 0 <= i < e1.len() ==> same_but_answer(#[trigger] e1[i], e2[i]),
    ensures
        run_actions(s, e1) == run_actions(s, e2),
        run_end(s, e1) == run_end(s, e2),
    decreases e1.len(),
{
    if e1.len() > 0 {
        lemma_yes_step(s, e1[0]);
        lemma_yes_step(s, e2[0]);
        assert(same_but_answer(e1[0], e2[0]));
        let next = migrate_step_spec(s, e1[0]).0;
        assert(migrate_step_spec(s, e1[0]) == migrate_step_spec(s, e2[0]));
        let r1 = e1.subrange(1, e1.len() as int);
        let r2 = e2.subrange(1, e2.len() as int);
        assert forall|i: int| 0 <= i < r1.len() implies same_but_answer(#[trigger] r1[i], r2[i]) by {
            assert(same_but_answer(e1[i + 1], e2[i + 1]));
        }
        lemma_yes_answers_do_not_matter(next, r1, r2);
    }
}

/// The event that reports a found installation directory.
pub open spec fn dir_found(from_given: bool) -> EventView {
    if from_given {
        EventView::DirChecked { exists: true }
    } else {
        EventView::DirDetected { found: true }
    }
}

/// The action that finds the installation directory.
pub open spec fn find_dir(from_given: bool) -> MigrateAction {
    if from_given {
        MigrateAction::CheckGivenDir
    } else {
        MigrateAction::DetectDir
    }
}

/// `claide migrate --yes` with an installation found: the config step is
/// always taken (whether or not the config loaded), the skills are copied
/// exactly when some were found, and a saved config is validated.
pub proof fn lemma_yes_openclaw_run(dry_run: bool, from_given: bool, ok: bool, skill_count: u64)
    ensures
        run_actions(
            initial_state(MigrateSource::OpenClaw, true, dry_run, from_given),
            seq![
                EventView::Started,
                dir_found(from_given),
                EventView::ConfigLoaded { ok },
                EventView::Summarized { skill_count },
                EventView::Done,
                EventView::Done,
            ],
        ) == seq![
            find_dir(from_given),
            MigrateAction::LoadConfig,
            MigrateAction::Summarize,
            MigrateAction::MigrateConfig { save: !dry_run },
            if skill_count > 0 {
                MigrateAction::CopySkills { write: !dry_run }
            } else {
                MigrateAction::NoSkills
            },
            if dry_run {
                MigrateAction::Report
            } else {
                MigrateAction::Validate
            },
        ],
{
    reveal_with_fuel(run_actions, 7);
    let events = seq![
        EventView::Started,
        dir_found(from_given),
        EventView::ConfigLoaded { ok },
        EventView::Summarized { skill_count },
        EventView::Done,
        EventView::Done,
    ];
    assert(events.subrange(1, 6) =~= seq![dir_found(from_given), EventView::ConfigLoaded { ok }, EventView::Summarized { skill_count }, EventView::Done, EventView::Done]);
    assert(events.subrange(1, 6).subrange(1, 5) =~= seq![EventView::ConfigLoaded { ok }, EventView::Summarized { skill_count }, EventView::Done, EventView::Done]);
    assert(events.subrange(1, 6).subrange(1, 5).subrange(1, 4) =~= seq![EventView::Summarized { skill_count }, EventView::Done, EventView::Done]);
    assert(events.subrange(1, 6).subrange(1, 5).subrange(1, 4).subrange(1, 3) =~= seq![EventView::Done, EventView::Done]);
    assert(seq![EventView::Done, EventView::Done].subrange(1, 2) =~= seq![EventView::Done]);
    assert(seq![EventView::Done].subrange(1, 1) =~= Seq::<EventView>::empty());
    assert(run_actions(initial_state(MigrateSource::OpenClaw, true, dry_run, from_given), events) =~= seq![
        find_dir(from_given),
        MigrateAction::LoadConfig,
        MigrateAction::Summarize,
        MigrateAction::MigrateConfig { save: !dry_run },
        if skill_count > 0 {
            MigrateAction::CopySkills { write: !dry_run }
        } else {
            MigrateAction::NoSkills
        },
        if dry_run {
            MigrateAction::Report
        } else {
            MigrateAction::Validate
        },
    ]);
}

/// `claide migrate zeroclaw --yes` with an installation found: a config that
/// loaded is converted, then the workspace is copied, then the report shown;
/// a config that failed to load goes straight to the workspace.
pub proof fn lemma_yes_zeroclaw_run(dry_run: bool, from_given: bool, ok: bool)
    ensures
        run_actions(
            initial_state(MigrateSource::ZeroClaw, true, dry_run, from_given),
            seq![
                EventView::Started,
                dir_found(from_given),
                EventView::ConfigLoaded { ok },
                EventView::Done,
                EventView::Done,
            ],
        ) == (if ok {
            seq![
                find_dir(from_given),
                MigrateAction::LoadConfig,
                MigrateAction::MigrateConfig { save: !dry_run },
                MigrateAction::CopyWorkspace { write: !dry_run },
                MigrateAction::Report,
            ]
        } else {
            seq![
                find_dir(from_given),
                MigrateAction::LoadConfig,
                MigrateAction::CopyWorkspace { write: !dry_run },
                MigrateAction::Report,
                MigrateAction::Invalid,
            ]
        }),
{
    reveal_with_fuel(run_actions, 6);
    let events = seq![
        EventView::Started,
        dir_found(from_given),
        EventView::ConfigLoaded { ok },
        EventView::Done,
        EventView::Done,
    ];
    assert(events.subrange(1, 5) =~= seq![dir_found(from_given), EventView::ConfigLoaded { ok }, EventView::Done, EventView::Done]);
    assert(events.subrange(1, 5).subrange(1, 4) =~= seq![EventView::ConfigLoaded { ok }, EventView::Done, EventView::Done]);
    assert(events.subrange(1, 5).subrange(1, 4).subrange(1, 3) =~= seq![EventView::Done, EventView::Done]);
    assert(seq![EventView::Done, EventView::Done].subrange(1, 2) =~= seq![EventView::Done]);
    assert(seq![EventView::Done].subrange(1, 1) =~= Seq::<EventView>::empty());
    let acts = run_actions(initial_state(MigrateSource::ZeroClaw, true, dry_run, from_given), events);
    if ok {
        assert(acts =~= seq![
            find_dir(from_given),
            MigrateAction::LoadConfig,
            MigrateAction::MigrateConfig { save: !dry_run },
            MigrateAction::CopyWorkspace { write: !dry_run },
            MigrateAction::Report,
        ]);
    } else {
        assert(acts =~= seq![
            find_dir(from_given),
            MigrateAction::LoadConfig,
            MigrateAction::CopyWorkspace { write: !dry_run },
            MigrateAction::Report,
            MigrateAction::Invalid,
        ]);
    }
}

// ---------------------------------------------------------------------------
// Laws of the prompts and of each step
// ---------------------------------------------------------------------------

/// A `[Y/n]` answer accepts exactly when it is empty, `y` or `yes`, each
/// letter in either case.
pub proof fn lemma_affirmative_answers(t: Seq<char>)
    ensures
        affirmative(t) <==> {
            ||| t.len() == 0
            ||| t.len() == 1 && (t[0] == 'y' || t[0] == 'Y')
            ||| t.len() == 3 && (t[0] == 'y' || t[0] == 'Y') && (t[1] == 'e' || t[1] == 'E')
                && (t[2] == 's' || t[2] == 'S')
        },
{
    reveal_strlit("y");
    reveal_strlit("yes");
    let a = ascii_lowercase(t);
    if t.len() == 1 {
        assert(a[0] == ascii_lower(t[0]));
        if t[0] == 'y' || t[0] == 'Y' {
            assert(a =~= "y"@);
        } else {
            assert(a[0] != "y"@[0]);
        }
    } else if t.len() == 3 {
        assert(a[0] == ascii_lower(t[0]));
        assert(a[1] == ascii_lower(t[1]));
        assert(a[2] == ascii_lower(t[2]));
        if (t[0] == 'y' || t[0] == 'Y') && (t[1] == 'e' || t[1] == 'E') && (t[2] == 's' || t[2] == 'S') {
            assert(a =~= "yes"@);
        } else if !(t[0] == 'y' || t[0] == 'Y') {
            assert(a[0] != "yes"@[0]);
        } else if !(t[1] == 'e' || t[1] == 'E') {
            assert(a[1] != "yes"@[1]);
        } else {
            assert(a[2] != "yes"@[2]);
        }
    } else if t.len() != 0 {
        assert(a.len() != "y"@.len() && a.len() != "yes"@.len());
    }
}

/// A step that saves or copies writes exactly when the migration is not a
/// dry run: agreeing to a step, or `--yes`, without `--dry-run` writes.
pub proof fn lemma_writing_steps_follow_dry_run(s: MigrateState, e: EventView)
    ensures
        ({
            let a = migrate_step_spec(s, e).1;
            (a is MigrateConfig || a is CopySkills || a is CopyWorkspace) ==> writes(a) == !s.dry_run
        }),
{
}

/// The answer to the config prompt decides the config step: yes converts the
/// config (and saves it unless `--dry-run`), anything else skips it.
pub proof fn lemma_config_answer(s: MigrateState, t: Seq<char>)
    requires
        s.phase == MigratePhase::AskingConfig,
    ensures
        ({
            let (next, a) = migrate_step_spec(s, EventView::Answer(t));
            &&& affirmative(t) ==> a is MigrateConfig && writes(a) == !s.dry_run && next.config_migrated
            &&& !affirmative(t) ==> a == MigrateAction::SkipConfig && next.config_migrated == s.config_migrated
        }),
{
}

/// The answer to the skills prompt decides the skills copy: yes copies them
/// (for real unless `--dry-run`), anything else goes on without copying.
pub proof fn lemma_skills_answer(s: MigrateState, t: Seq<char>)
    requires
        s.phase == MigratePhase::AskingSkills,
    ensures
        ({
            let a = migrate_step_spec(s, EventView::Answer(t)).1;
            &&& affirmative(t) ==> a is CopySkills && writes(a) == !s.dry_run
            &&& !affirmative(t) ==> !(a is CopySkills) && !writes(a)
        }),
{
}

/// The answer to the workspace prompt decides the workspace copy: yes copies
/// it (for real unless `--dry-run`), anything else ends with the report.
pub proof fn lemma_workspace_answer(s: MigrateState, t: Seq<char>)
    requires
        s.phase == MigratePhase::AskingWorkspace,
    ensures
        ({
            let a = migrate_step_spec(s, EventView::Answer(t)).1;
            &&& affirmative(t) ==> a is CopyWorkspace && writes(a) == !s.dry_run
            &&& !affirmative(t) ==> a == MigrateAction::Report
        }),
{
}

/// The installation directory: a `--from` directory that does not exist
/// stops the command with an error; one that exists, or one detected, is
/// loaded next; no detected installation ends the command without error.
pub proof fn lemma_directory_steps(s: MigrateState, found: bool)
    ensures
        s.phase == MigratePhase::CheckingDir ==> migrate_step_spec(s, EventView::DirChecked { exists: found }).1
            == (if found { MigrateAction::LoadConfig } else { MigrateAction::FailMissingDir }),
        s.phase == MigratePhase::Detecting ==> migrate_step_spec(s, EventView::DirDetected { found }).1
            == (if found { MigrateAction::LoadConfig } else { MigrateAction::ReportNotDetected }),
        s.phase == MigratePhase::Begin ==> migrate_step_spec(s, EventView::Started).1
            == (if s.from_given { MigrateAction::CheckGivenDir } else { MigrateAction::DetectDir }),
{
}

} // verus!
